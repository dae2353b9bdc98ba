//! The memory bus.
//!
//! The bus is a flat array of bytes behind a 16-bit address. Two ranges of
//! addresses do not reach the array directly:
//!
//! * the echo region `0xE000..=0xFDFF` mirrors the range `0x2000` below it;
//! * the prohibited region `0xFEA0..=0xFEFF` is backed by nothing.
//!
//! Whether each region is emulated or reported as inaccessible is decided when
//! the bus is built. Every 16-bit address exists.
use vstd::prelude::*;

verus! {

/// Number of addressable cells.
pub const RAM_SIZE: usize = 0x1_0000;

/// First address of the echo region.
pub const ECHO_FIRST: u16 = 0xE000;

/// Last address of the echo region.
pub const ECHO_LAST: u16 = 0xFDFF;

/// Distance from an echo address down to the cell it mirrors.
pub const ECHO_OFFSET: u16 = 0x2000;

/// First address of the prohibited region.
pub const PROHIBITED_FIRST: u16 = 0xFEA0;

/// Last address of the prohibited region.
pub const PROHIBITED_LAST: u16 = 0xFEFF;

/// Why a write was refused.
#[derive(Clone, Copy, Debug, PartialEq, Eq, Structural)]
pub enum _WriteError {
    AddressDoesNotExist,
    /// The address exists but cannot be written to.
    AddressUnwritable,
}

/// Why a read was refused.
#[derive(Clone, Copy, Debug, PartialEq, Eq, Structural)]
pub enum ReadError {
    AddressDoesNotExist,
    /// The address exists but cannot be read from.
    AddressUnreadable,
}

/// Whether `address` lies in the echo region.
pub open spec fn in_echo_region(address: u16) -> bool {
    ECHO_FIRST <= address <= ECHO_LAST
}

/// Whether `address` lies in the prohibited region.
pub open spec fn in_prohibited_region(address: u16) -> bool {
    PROHIBITED_FIRST <= address <= PROHIBITED_LAST
}

/// The mathematical content of a bus: its cells and how it was configured.
#[verifier::ext_equal]
pub struct Bus {
    pub cells: Seq<u8>,
    pub echo: bool,
    pub prohibited: bool,
}

impl Bus {
    /// The bus has one cell for each address that exists.
    pub open spec fn wf(self) -> bool {
        self.cells.len() == RAM_SIZE
    }

    /// What a read of `address` returns.
    pub open spec fn read(self, address: u16) -> Result<u8, ReadError> {
        if address >= RAM_SIZE {
            Err(ReadError::AddressDoesNotExist)
        } else if in_echo_region(address) {
            if self.echo {
                Ok(self.cells[address - ECHO_OFFSET])
            } else {
                Err(ReadError::AddressUnreadable)
            }
        } else if in_prohibited_region(address) {
            if self.prohibited {
                Ok(0u8)
            } else {
                Err(ReadError::AddressUnreadable)
            }
        } else {
            Ok(self.cells[address as int])
        }
    }

    /// The byte a micro-operation sees at `address`: what a read returns, or
    /// zero where the read is refused.
    pub open spec fn peek(self, address: u16) -> u8 {
        match self.read(address) {
            Ok(value) => value,
            Err(_) => 0u8,
        }
    }

    /// The bus with `value` stored in the cell at index `cell`.
    pub open spec fn store(self, cell: int, value: u8) -> Bus {
        Bus { cells: self.cells.update(cell, value), ..self }
    }

    /// What a write of `value` to `address` leaves behind: the new bus, or the
    /// reason the write was refused (the bus is then unchanged).
    pub open spec fn write(self, value: u8, address: u16) -> Result<Bus, _WriteError> {
        if address >= RAM_SIZE {
            Err(_WriteError::AddressDoesNotExist)
        } else if in_echo_region(address) {
            if self.echo {
                Ok(self.store(address - ECHO_OFFSET, value))
            } else {
                Err(_WriteError::AddressUnwritable)
            }
        } else if in_prohibited_region(address) {
            if self.prohibited {
                Ok(self)
            } else {
                Err(_WriteError::AddressUnwritable)
            }
        } else {
            Ok(self.store(address as int, value))
        }
    }

    /// The bus after an attempt to write, successful or not.
    pub open spec fn after_write(self, value: u8, address: u16) -> Bus {
        match self.write(value, address) {
            Ok(bus) => bus,
            Err(_) => self,
        }
    }
}

/// The bus: its backing store and its configuration.
pub struct RAM {
    buf: Vec<u8>,
    echo_ram_emulation: bool,
    prohibited_range_emulation: bool,
}

impl View for RAM {
    type V = Bus;

    closed spec fn view(&self) -> Bus {
        Bus {
            cells: self.buf@,
            echo: self.echo_ram_emulation,
            prohibited: self.prohibited_range_emulation,
        }
    }
}

impl RAM {
    /// The bus has one cell for each address.
    #[verifier::type_invariant]
    pub open spec fn sized(&self) -> bool {
        self@.wf()
    }

    /// Stores `value` at `address`.
    pub fn _write(&mut self, value: u8, address: u16) -> (r: Result<(), _WriteError>)
        ensures
            old(self)@.wf(),
            final(self)@.wf(),
            match old(self)@.write(value, address) {
                Ok(bus) => r == Ok::<(), _WriteError>(()) && final(self)@ == bus,
                Err(e) => r == Err::<(), _WriteError>(e) && final(self)@ == old(self)@,
            },
        decreases address,
    {
        proof {
            use_type_invariant(&*self);
        }
        if address as usize >= RAM_SIZE {
            return Err(_WriteError::AddressDoesNotExist);
        }
        if ECHO_FIRST <= address && address <= ECHO_LAST {
            if self.echo_ram_emulation {
                return self._write(value, address - ECHO_OFFSET);
            } else {
                return Err(_WriteError::AddressUnwritable);
            }
        }
        if PROHIBITED_FIRST <= address && address <= PROHIBITED_LAST {
            if self.prohibited_range_emulation {
                return Ok(());
            } else {
                return Err(_WriteError::AddressUnwritable);
            }
        }
        self.buf[address as usize] = value;
        Ok(())
    }

    /// Loads the byte at `address`.
    pub fn read(&self, address: u16) -> (r: Result<u8, ReadError>)
        ensures
            self@.wf(),
            r == self@.read(address),
        decreases address,
    {
        proof {
            use_type_invariant(self);
        }
        if address as usize >= RAM_SIZE {
            return Err(ReadError::AddressDoesNotExist);
        }
        if ECHO_FIRST <= address && address <= ECHO_LAST {
            if self.echo_ram_emulation {
                return self.read(address - ECHO_OFFSET);
            } else {
                return Err(ReadError::AddressUnreadable);
            }
        }
        if PROHIBITED_FIRST <= address && address <= PROHIBITED_LAST {
            if self.prohibited_range_emulation {
                return Ok(0);
            } else {
                return Err(ReadError::AddressUnreadable);
            }
        }
        Ok(self.buf[address as usize])
    }

    /// Whether the echo region mirrors the range below it.
    pub fn echo_ram_emulation(&self) -> (r: bool)
        ensures
            self@.wf(),
            r == self@.echo,
    {
        proof {
            use_type_invariant(self);
        }
        self.echo_ram_emulation
    }

    /// Whether the prohibited region reads as zero and swallows writes.
    pub fn prohibited_range_emulation(&self) -> (r: bool)
        ensures
            self@.wf(),
            r == self@.prohibited,
    {
        proof {
            use_type_invariant(self);
        }
        self.prohibited_range_emulation
    }
}

/// The content of a freshly built bus: every cell zero.
pub open spec fn blank(echo: bool, prohibited: bool) -> Bus {
    Bus { cells: Seq::new(RAM_SIZE as nat, |i: int| 0u8), echo, prohibited }
}

/// A zeroed bus on which neither region is emulated.
pub fn init() -> (ram: RAM)
    ensures
        ram@.wf(),
        ram@ == blank(false, false),
{
    configured(false, false)
}

/// A zeroed bus with the given emulation of the echo region and of the
/// prohibited region.
pub fn configured(echo_ram_emulation: bool, prohibited_range_emulation: bool) -> (ram: RAM)
    ensures
        ram@.wf(),
        ram@ == blank(echo_ram_emulation, prohibited_range_emulation),
{
    let buf: Vec<u8> = vec![0u8; RAM_SIZE];
    assert(buf@ =~= Seq::new(RAM_SIZE as nat, |i: int| 0u8));
    RAM { buf, echo_ram_emulation, prohibited_range_emulation }
}

/// With the echo region emulated, a byte written anywhere in it is read back
/// both there and from the cell `0x2000` below.
pub proof fn lemma_echo_aliases(bus: Bus, address: u16, value: u8)
    requires
        bus.wf(),
        bus.echo,
        in_echo_region(address),
    ensures
        bus.write(value, address) is Ok,
        bus.after_write(value, address).read((address - ECHO_OFFSET) as u16) == Ok::<u8, ReadError>(
            value,
        ),
        bus.after_write(value, address).read(address) == Ok::<u8, ReadError>(value),
{
}

/// With the echo region emulated, a byte written to the mirrored range is read
/// back through the echo region as well.
pub proof fn lemma_echo_follows(bus: Bus, address: u16, value: u8)
    requires
        bus.wf(),
        bus.echo,
        in_echo_region(address),
    ensures
        bus.after_write(value, (address - ECHO_OFFSET) as u16).read(address) == Ok::<
            u8,
            ReadError,
        >(value),
{
}

/// With the prohibited region emulated, a write into it succeeds, leaves the
/// whole bus as it was, and every read in the region gives zero.
pub proof fn lemma_prohibited_region_is_inert(bus: Bus, address: u16, value: u8, probe: u16)
    requires
        bus.prohibited,
        in_prohibited_region(address),
        in_prohibited_region(probe),
    ensures
        bus.write(value, address) == Ok::<Bus, _WriteError>(bus),
        bus.read(probe) == Ok::<u8, ReadError>(0u8),
        bus.after_write(value, address).read(probe) == Ok::<u8, ReadError>(0u8),
{
}

/// A write changes no cell but the one it addresses.
pub proof fn lemma_write_is_local(bus: Bus, address: u16, value: u8, other: u16)
    requires
        bus.wf(),
        bus.read(other) is Ok,
        other != address,
        in_echo_region(address) ==> other != address - ECHO_OFFSET,
        in_echo_region(other) ==> other - ECHO_OFFSET != address,
    ensures
        bus.after_write(value, address).read(other) == bus.read(other),
{
}

/// Reads and writes are refused on the same addresses, and only inside a
/// region that is not emulated: every address exists.
pub proof fn lemma_read_and_write_agree(bus: Bus, address: u16, value: u8)
    ensures
        bus.read(address) is Ok <==> bus.write(value, address) is Ok,
        bus.read(address) is Err <==> (in_echo_region(address) && !bus.echo) || (
        in_prohibited_region(address) && !bus.prohibited),
        bus.read(address) != Err::<u8, ReadError>(ReadError::AddressDoesNotExist),
        bus.write(value, address) != Err::<Bus, _WriteError>(_WriteError::AddressDoesNotExist),
{
}

/// A write to an address outside both regions stores the byte there and
/// nowhere else.
pub proof fn lemma_plain_write(bus: Bus, address: u16, value: u8)
    requires
        bus.wf(),
        !in_echo_region(address),
        !in_prohibited_region(address),
    ensures
        bus.write(value, address) == Ok::<Bus, _WriteError>(bus.store(address as int, value)),
        bus.store(address as int, value).cells[address as int] == value,
        forall|other: int|
            0 <= other < RAM_SIZE && other != address ==> bus.store(
                address as int,
                value,
            ).cells[other] == bus.cells[other],
{
}

/// A new bus reads zero wherever it can be read.
pub proof fn lemma_blank_reads_zero(echo: bool, prohibited: bool, address: u16)
    ensures
        blank(echo, prohibited).wf(),
        blank(echo, prohibited).read(address) is Ok ==> blank(echo, prohibited).read(address)
            == Ok::<u8, ReadError>(0u8),
        echo && prohibited ==> blank(echo, prohibited).read(address) == Ok::<u8, ReadError>(0u8),
{
}

} // verus!
