//! What holds of the engine from tick to tick.
//!
//! The statements here are about [`step`], the function a tick computes, and
//! about its repetition, [`steps`].
use vstd::prelude::*;
use crate::alu::accumulated;
use crate::alu::changed;
use crate::alu::computed;
use crate::alu::offset16;
use crate::alu::sum16;
use crate::alu::tested;
use crate::cpu::ahead;
use crate::cpu::fetched;
use crate::cpu::following;
use crate::cpu::issued;
use crate::cpu::issuing;
use crate::cpu::lemma_flags_round_trip;
use crate::cpu::lemma_pair_round_trip;
use crate::cpu::refused;
use crate::cpu::run_next;
use crate::cpu::step;
use crate::cpu::CPUError;
use crate::cpu::CPUStage;
use crate::cpu::Flags;
use crate::cpu::Machine;
use crate::cpu::Register16;
use crate::cpu::RegisterFile;
use crate::cpu::Ticked;
use crate::decode::is_covered;
use crate::decode::is_illegal;
use crate::decode::lemma_covered_bytes;
use crate::decode::lemma_illegal_bytes;
use crate::decode::DecodeError;
use crate::decode::ESCAPE;
use crate::decode::Instruction;
use crate::execute::bus_after;
use crate::execute::effect;
use crate::execute::entering;
use crate::execute::latched;
use crate::execute::operand_value;
use crate::execute::registers_after;
use crate::execute::stepped16;
use crate::execute::transfer;
use crate::ram::Bus;
use crate::ram::ReadError;
use crate::schedule::advance;
use crate::schedule::declared_cycles_given;
use crate::schedule::encoded_length;
use crate::schedule::hand_over_index;
use crate::schedule::is_jump_given;
use crate::schedule::lemma_decoded_has_schedule;
use crate::schedule::lemma_schedule_shape;
use crate::schedule::scheduled_given;
use crate::schedule::Action;
use crate::schedule::MicroOp;

verus! {

/// `pc` stepped `by` times, wrapping at the top of the address space.
pub open spec fn moved(pc: u16, by: int) -> u16 {
    ((pc + by) % 0x1_0000) as u16
}

/// `count` ticks in a row, stopping at the first that fails.
pub open spec fn steps(m: Machine, bus: Bus, count: nat) -> Ticked
    decreases count,
{
    if count == 0 {
        Ticked { machine: m, bus, outcome: Ok(()) }
    } else {
        let before = steps(m, bus, (count - 1) as nat);
        if before.outcome is Err {
            before
        } else {
            step(before.machine, before.bus)
        }
    }
}

/// What a micro-operation leaves alone, and what it does to the stage, the
/// run flag and the program counter.
pub proof fn lemma_effect_frame(op: MicroOp, m: Machine, bus: Bus)
    ensures
        effect(op, m, bus).0.queue == m.queue,
        effect(op, m, bus).0.current_instruction == m.current_instruction,
        effect(op, m, bus).0.running == (m.running && !op.stops()),
        effect(op, m, bus).0.stage == if op.hands_over {
            CPUStage::FetchDecode
        } else {
            m.stage
        },
        0 <= op.pc_steps() <= 2,
        !op.jumps() ==> registers_after(op, m.registers, bus).pc == moved(
            m.registers.pc,
            op.pc_steps(),
        ),
        op == (MicroOp { action: Action::Jump, advance: false, hands_over: op.hands_over })
            ==> registers_after(op, m.registers, bus).pc == m.registers.wz_value(),
        forall|slot: u8|
            op == (MicroOp {
                action: Action::Restart { slot },
                advance: false,
                hands_over: op.hands_over,
            }) ==> registers_after(op, m.registers, bus).pc == 8 * slot,
{
}

/// A micro-operation keeps the configuration and the size of the bus.
pub proof fn lemma_effect_keeps_bus_shape(op: MicroOp, registers: RegisterFile, bus: Bus)
    ensures
        bus_after(op, registers, bus).echo == bus.echo,
        bus_after(op, registers, bus).prohibited == bus.prohibited,
        bus.wf() ==> bus_after(op, registers, bus).wf(),
{
    reveal(transfer);
    assert forall|value: u8, address: u16|
        #![all_triggers]
        bus.after_write(value, address).echo == bus.echo && bus.after_write(
            value,
            address,
        ).prohibited == bus.prohibited && (bus.wf() ==> bus.after_write(value, address).wf()) by {}
}

/// A micro-operation keeps the low nibble of F clear.
pub proof fn lemma_effect_keeps_flags_packed(op: MicroOp, before: RegisterFile, bus: Bus)
    requires
        before.wf(),
    ensures
        registers_after(op, before, bus).wf(),
{
    reveal(transfer);
    let registers = entering(op.action, before);
    let moved = transfer(op.action, registers, bus).0;
    assert(registers_after(op, before, bus).f == moved.f);
    match op.action {
        Action::Alu { operation, source } => {
            let result = computed(
                operation,
                registers.a,
                operand_value(registers, source),
                registers.flag_values(),
            );
            lemma_flags_round_trip(RegisterFile { a: result.value, ..registers }, result.flags);
        },
        Action::Apply { target, change } => {
            let result = changed(change, registers.value_of(target), registers.flag_values());
            lemma_flags_round_trip(registers.with(target, result.value), result.flags);
        },
        Action::Update { change } => {
            let result = changed(change, registers.z, registers.flag_values());
            lemma_flags_round_trip(RegisterFile { z: result.value, ..registers }, result.flags);
        },
        Action::Test { bit, source } => {
            lemma_flags_round_trip(
                registers,
                tested(operand_value(registers, source), bit, registers.flag_values()),
            );
        },
        Action::AddHl { pair } => {
            let result = sum16(
                registers.hl_value(),
                registers.pair_value(pair) as u16,
                registers.flag_values(),
            );
            lemma_flags_round_trip(registers.with_pair(Register16::HL, result.value), result.flags);
        },
        Action::OffsetSp => {
            let result = offset16(registers.sp, registers.z);
            lemma_flags_round_trip(latched(registers, result.value), result.flags);
        },
        Action::Accumulator { operation } => {
            let result = accumulated(operation, registers.a, registers.flag_values());
            lemma_flags_round_trip(RegisterFile { a: result.value, ..registers }, result.flags);
        },
        Action::Load { target, source } => {
            assert(registers.with(target, operand_value(registers, source)).f == registers.f);
        },
        Action::LoadPair { pair } => {
            lemma_pair_round_trip(registers, pair, registers.wz_value());
        },
        Action::StepPair { pair, up } => {
            lemma_pair_round_trip(
                registers,
                pair,
                stepped16(registers.pair_value(pair) as u16, up),
            );
        },
        _ => {},
    }
}

/// What is issued is the instruction at the program counter together with
/// its own schedule.
pub proof fn lemma_issued_with_schedule(bus: Bus, registers: RegisterFile)
    requires
        issued(bus, registers) is Ok,
    ensures
        fetched(bus, registers.pc) == Ok::<Instruction, CPUError>(issued(bus, registers)->Ok_0.0),
        scheduled_given(issued(bus, registers)->Ok_0.0, registers.flag_values()) == Ok::<
            Seq<MicroOp>,
            DecodeError,
        >(issued(bus, registers)->Ok_0.1),
        bus.read(registers.pc) is Ok,
{
    reveal(issued);
}

/// When a fetch fails, and how.
///
/// The fetch is illegal exactly when the opcode cannot be read, or is the
/// escape byte and the byte behind it cannot be read. The opcode is illegal
/// exactly when it is one of the undefined bytes, and unimplemented exactly
/// when the decoder does not cover it: whatever the decoder covers, the
/// engine runs. A fetch never fails for want of a micro-operation.
pub proof fn lemma_issue_failures(bus: Bus, registers: RegisterFile)
    ensures
        issued(bus, registers) == Err::<(Instruction, Seq<MicroOp>), CPUError>(
            CPUError::IllegalFetch,
        ) <==> bus.read(registers.pc) is Err || (bus.read(registers.pc) == Ok::<u8, ReadError>(
            ESCAPE,
        ) && bus.read(following(registers.pc)) is Err),
        issued(bus, registers) == Err::<(Instruction, Seq<MicroOp>), CPUError>(
            CPUError::IllegalOpcode,
        ) <==> bus.read(registers.pc) is Ok && is_illegal(bus.read(registers.pc)->Ok_0),
        issued(bus, registers) == Err::<(Instruction, Seq<MicroOp>), CPUError>(
            CPUError::UnimplementedOpcode,
        ) <==> bus.read(registers.pc) is Ok && !is_illegal(bus.read(registers.pc)->Ok_0)
            && !is_covered(bus.read(registers.pc)->Ok_0),
        issued(bus, registers) != Err::<(Instruction, Seq<MicroOp>), CPUError>(
            CPUError::EmptyMicroOpQueue,
        ),
{
    reveal(issued);
    if bus.read(registers.pc) is Ok {
        let opcode = bus.read(registers.pc)->Ok_0;
        lemma_illegal_bytes(opcode);
        lemma_covered_bytes(opcode);
        lemma_decoded_has_schedule(opcode, registers.flag_values());
        if bus.read(following(registers.pc)) is Ok {
            lemma_decoded_has_schedule(
                bus.read(following(registers.pc))->Ok_0,
                registers.flag_values(),
            );
        }
    }
}

/// The queue of an engine in the execute stage: the rest of one schedule,
/// with the hand-over still to come. Exactly one micro-operation hands over,
/// the last but one or the only one, and only a micro-operation on its own
/// stops the engine.
pub open spec fn in_progress(queue: Seq<MicroOp>) -> bool {
    &&& queue.len() >= 1
    &&& queue[hand_over_index(queue.len() as int)].hands_over
    &&& forall|j: int|
        0 <= j < queue.len() && j != hand_over_index(queue.len() as int) ==> !queue[j].hands_over
    &&& forall|j: int| 0 <= j < queue.len() && queue.len() >= 2 ==> !queue[j].stops()
}

/// The queue of an engine in the fetch stage: nothing, or the last
/// micro-operation of the instruction that handed over.
pub open spec fn at_rest(queue: Seq<MicroOp>) -> bool {
    queue.len() == 0 || (queue.len() == 1 && !queue[0].hands_over && !queue[0].stops())
}

/// The queue fits the stage: never empty in the execute stage, and holding
/// at most the last micro-operation of one instruction in the fetch stage.
pub open spec fn consistent(m: Machine) -> bool {
    match m.stage {
        CPUStage::FetchDecode => at_rest(m.queue),
        CPUStage::Execute => in_progress(m.queue),
    }
}

/// A new engine is consistent.
pub proof fn lemma_initial_is_consistent()
    ensures
        consistent(Machine::initial()),
        Machine::initial().registers.wf(),
{
}

/// A tick keeps a consistent engine consistent, whether it succeeds or
/// fails, whether the engine runs or is stopped, and never finds the queue of
/// a consistent engine empty.
pub proof fn lemma_step_keeps_consistent(m: Machine, bus: Bus)
    requires
        consistent(m),
    ensures
        consistent(step(m, bus).machine),
        step(m, bus).outcome != Err::<(), CPUError>(CPUError::EmptyMicroOpQueue),
{
    if m.running {
        if m.stage == CPUStage::Execute {
            lemma_run_next_keeps_consistent(m, bus);
        } else {
            let registers = ahead(m, bus);
            match issued(bus, registers) {
                Err(error) => {
                    lemma_issue_failures(bus, registers);
                },
                Ok((instruction, ops)) => {
                    lemma_issued_with_schedule(bus, registers);
                    lemma_schedule_shape(instruction, registers.flag_values());
                    let issuing = issuing(m, instruction, ops);
                    assert(in_progress(ops));
                    if m.queue.len() == 0 {
                        assert(issuing.queue =~= ops);
                        lemma_run_next_keeps_consistent(issuing, bus);
                    } else {
                        let rest = issuing.queue.subrange(1, issuing.queue.len() as int);
                        assert(rest =~= ops);
                        assert(issuing.queue[0] == m.queue[0]);
                        lemma_effect_frame(m.queue[0], Machine { queue: rest, ..issuing }, bus);
                    }
                },
            }
        }
    }
}

proof fn lemma_run_next_keeps_consistent(m: Machine, bus: Bus)
    requires
        m.stage == CPUStage::Execute,
        in_progress(m.queue),
    ensures
        consistent(run_next(m, bus).machine),
        run_next(m, bus).outcome is Ok,
{
    let length = m.queue.len() as int;
    let rest = m.queue.subrange(1, length);
    let popped = Machine { queue: rest, ..m };
    let op = m.queue[0];
    lemma_effect_frame(op, popped, bus);
    let after = effect(op, popped, bus).0;
    assert(run_next(m, bus).machine == after);
    assert(after.queue == rest);
    if length == 1 {
        assert(op.hands_over);
        assert(rest.len() == 0);
    } else if length == 2 {
        assert(op.hands_over);
        assert(rest.len() == 1 && rest[0] == m.queue[1]);
        assert(at_rest(rest));
    } else {
        assert(!op.hands_over);
        assert(after.stage == CPUStage::Execute);
        assert(rest.len() == length - 1);
        assert(rest[hand_over_index(rest.len() as int)] == m.queue[hand_over_index(length)]);
        assert forall|j: int|
            0 <= j < rest.len() && j != hand_over_index(rest.len() as int) implies !rest[j].hands_over by {
            assert(rest[j] == m.queue[j + 1]);
        }
        assert forall|j: int| 0 <= j < rest.len() && rest.len() >= 2 implies !rest[j].stops() by {
            assert(rest[j] == m.queue[j + 1]);
        }
        assert(in_progress(rest));
    }
}

/// A tick keeps the low nibble of F clear and the bus the size it was.
pub proof fn lemma_step_keeps_well_formed(m: Machine, bus: Bus)
    ensures
        m.registers.wf() ==> step(m, bus).machine.registers.wf(),
        bus.wf() ==> step(m, bus).bus.wf(),
        step(m, bus).bus.echo == bus.echo,
        step(m, bus).bus.prohibited == bus.prohibited,
{
    if m.running {
        let ready = if m.stage == CPUStage::Execute {
            m
        } else {
            match issued(bus, ahead(m, bus)) {
                Err(error) => m,
                Ok((instruction, ops)) => issuing(m, instruction, ops),
            }
        };
        if ready.queue.len() > 0 {
            lemma_effect_keeps_bus_shape(ready.queue[0], ready.registers, bus);
            if m.registers.wf() {
                lemma_effect_keeps_flags_packed(ready.queue[0], ready.registers, bus);
            }
        }
    }
}

/// The last micro-operation runs beside the fetch.
///
/// A tick in the fetch stage with a micro-operation pending reads the opcode
/// where that micro-operation leaves the program counter: behind the whole
/// instruction, or where the instruction jumps. It issues the instruction it
/// finds there and runs the pending micro-operation. A fetch that fails
/// changes nothing, and the micro-operation stays pending.
pub proof fn lemma_last_beside_fetch(m: Machine, bus: Bus)
    requires
        m.running,
        m.stage == CPUStage::FetchDecode,
        m.queue.len() == 1,
    ensures
        ahead(m, bus) == registers_after(m.queue[0], m.registers, bus),
        match issued(bus, registers_after(m.queue[0], m.registers, bus)) {
            Err(error) => step(m, bus) == refused(m, bus, error),
            Ok((instruction, ops)) => step(m, bus) == (Ticked {
                machine: Machine {
                    registers: registers_after(m.queue[0], m.registers, bus),
                    running: !m.queue[0].stops(),
                    stage: if m.queue[0].hands_over {
                        CPUStage::FetchDecode
                    } else {
                        CPUStage::Execute
                    },
                    current_instruction: instruction,
                    queue: ops,
                },
                bus: bus_after(m.queue[0], m.registers, bus),
                outcome: Ok(()),
            }),
        },
{
    match issued(bus, ahead(m, bus)) {
        Err(error) => {},
        Ok((instruction, ops)) => {
            let issuing = issuing(m, instruction, ops);
            assert(issuing.queue.subrange(1, issuing.queue.len() as int) =~= ops);
            assert(issuing.queue[0] == m.queue[0]);
            assert(step(m, bus).machine =~= Machine {
                registers: registers_after(m.queue[0], m.registers, bus),
                running: !m.queue[0].stops(),
                stage: if m.queue[0].hands_over {
                    CPUStage::FetchDecode
                } else {
                    CPUStage::Execute
                },
                current_instruction: instruction,
                queue: ops,
            });
        },
    }
}

/// A stopped engine ignores ticks.
pub proof fn lemma_stopped_engine_is_idle(m: Machine, bus: Bus, count: nat)
    requires
        !m.running,
    ensures
        steps(m, bus, count) == (Ticked { machine: m, bus, outcome: Ok(()) }),
    decreases count,
{
    if count > 0 {
        lemma_stopped_engine_is_idle(m, bus, (count - 1) as nat);
    }
}

/// A failed tick can be repeated: it fails the same way and still changes
/// nothing.
pub proof fn lemma_failure_changes_nothing(m: Machine, bus: Bus)
    requires
        step(m, bus).outcome is Err,
    ensures
        step(m, bus).machine == m,
        step(m, bus).bus == bus,
        step(step(m, bus).machine, step(m, bus).bus) == step(m, bus),
{
    if m.running && m.stage == CPUStage::FetchDecode {
        let registers = ahead(m, bus);
        match issued(bus, registers) {
            Err(error) => {},
            Ok((instruction, ops)) => {
                lemma_issued_with_schedule(bus, registers);
                lemma_schedule_shape(instruction, registers.flag_values());
            },
        }
    }
}

/// The engine with `instruction` just issued and nothing else pending.
pub open spec fn issued_alone(m: Machine, instruction: Instruction, ops: Seq<MicroOp>) -> Machine {
    Machine { current_instruction: instruction, queue: ops, stage: CPUStage::Execute, ..m }
}

/// Stepping the program counter adds up.
pub proof fn lemma_moved_twice(pc: u16, first: int, second: int)
    requires
        0 <= first,
        0 <= second,
    ensures
        moved(moved(pc, first), second) == moved(pc, first + second),
        moved(pc, 0) == pc,
{
    vstd::arithmetic::div_mod::lemma_add_mod_noop(pc + first, second, 0x1_0000);
}

/// The cycles of an instruction before its last, one by one.
///
/// From the state in which an instruction of more than one cycle has just
/// been issued, each tick up to the last but one succeeds and runs the next
/// micro-operation of the schedule. The engine stays in the execute stage
/// until the last but one, which hands over and leaves the last alone in the
/// queue.
pub proof fn lemma_in_flight(m: Machine, bus: Bus, flags: Flags, ticks: nat)
    requires
        m.running,
        m.stage == CPUStage::Execute,
        scheduled_given(m.current_instruction, flags) == Ok::<Seq<MicroOp>, DecodeError>(
            m.queue,
        ),
        declared_cycles_given(m.current_instruction, flags)->Some_0 >= 2,
        ticks <= declared_cycles_given(m.current_instruction, flags)->Some_0 - 1,
    ensures
        steps(m, bus, ticks).outcome is Ok,
        steps(m, bus, ticks).machine.running,
        steps(m, bus, ticks).machine.current_instruction == m.current_instruction,
        steps(m, bus, ticks).machine.queue == m.queue.subrange(ticks as int, m.queue.len() as int),
        steps(m, bus, ticks).machine.stage == if ticks == declared_cycles_given(
            m.current_instruction,
            flags,
        )->Some_0 - 1 {
            CPUStage::FetchDecode
        } else {
            CPUStage::Execute
        },
        steps(m, bus, ticks).machine.registers.pc == moved(
            m.registers.pc,
            advance(m.queue, ticks as int),
        ),
        advance(m.queue, ticks as int) >= 0,
    decreases ticks,
{
    let ops = m.queue;
    let cycles = declared_cycles_given(m.current_instruction, flags)->Some_0;
    lemma_schedule_shape(m.current_instruction, flags);
    if ticks == 0 {
        assert(ops.subrange(0, ops.len() as int) =~= ops);
        lemma_moved_twice(m.registers.pc, 0, 0);
    } else {
        let earlier = (ticks - 1) as nat;
        lemma_in_flight(m, bus, flags, earlier);
        let before = steps(m, bus, earlier);
        let queue = before.machine.queue;
        assert(queue.len() == ops.len() - earlier);
        let op = queue[0];
        assert(op == ops[earlier as int]);
        let rest = queue.subrange(1, queue.len() as int);
        assert(rest =~= ops.subrange(ticks as int, ops.len() as int));
        let popped = Machine { queue: rest, ..before.machine };
        lemma_effect_frame(op, popped, before.bus);
        assert(steps(m, bus, ticks) == step(before.machine, before.bus));
        assert(step(before.machine, before.bus).machine == effect(op, popped, before.bus).0);
        lemma_moved_twice(m.registers.pc, advance(ops, earlier as int), op.pc_steps());
    }
}

/// From an empty queue the first tick issues the instruction and runs its
/// first micro-operation at once: the ticks count from the fetch.
pub proof fn lemma_fresh_start(m: Machine, bus: Bus, ticks: nat)
    requires
        m.running,
        m.stage == CPUStage::FetchDecode,
        m.queue.len() == 0,
        issued(bus, m.registers) is Ok,
        ticks >= 1,
    ensures
        steps(m, bus, ticks) == steps(
            issued_alone(m, issued(bus, m.registers)->Ok_0.0, issued(bus, m.registers)->Ok_0.1),
            bus,
            ticks,
        ),
    decreases ticks,
{
    let instruction = issued(bus, m.registers)->Ok_0.0;
    let ops = issued(bus, m.registers)->Ok_0.1;
    let alone = issued_alone(m, instruction, ops);
    if ticks == 1 {
        reveal_with_fuel(steps, 2);
        assert(issuing(m, instruction, ops).queue =~= ops);
        assert(issuing(m, instruction, ops) == alone);
    } else {
        lemma_fresh_start(m, bus, (ticks - 1) as nat);
    }
}

/// An instruction of a single cycle is done in the tick that fetches it from
/// an empty queue: its one micro-operation runs, the engine is back in the
/// fetch stage with nothing pending, and, unless the instruction stops the
/// engine, still running.
pub proof fn lemma_single_cycle(m: Machine, bus: Bus)
    requires
        m.running,
        m.stage == CPUStage::FetchDecode,
        m.queue.len() == 0,
        issued(bus, m.registers) is Ok,
        declared_cycles_given(issued(bus, m.registers)->Ok_0.0, m.registers.flag_values())
            == Some(1nat),
    ensures
        ({
            let instruction = issued(bus, m.registers)->Ok_0.0;
            let op = issued(bus, m.registers)->Ok_0.1[0];
            &&& step(m, bus).outcome is Ok
            &&& step(m, bus).machine == (Machine {
                registers: registers_after(op, m.registers, bus),
                running: !op.stops(),
                stage: CPUStage::FetchDecode,
                current_instruction: instruction,
                queue: Seq::empty(),
            })
            &&& step(m, bus).bus == bus_after(op, m.registers, bus)
            &&& step(m, bus).machine.registers.pc == moved(
                m.registers.pc,
                encoded_length(instruction),
            )
            &&& step(m, bus).machine.registers.pc != m.registers.pc
        }),
{
    let instruction = issued(bus, m.registers)->Ok_0.0;
    let ops = issued(bus, m.registers)->Ok_0.1;
    lemma_issued_with_schedule(bus, m.registers);
    lemma_schedule_shape(instruction, m.registers.flag_values());
    reveal_with_fuel(advance, 2);
    let issuing = issuing(m, instruction, ops);
    assert(issuing.queue =~= ops);
    let rest = issuing.queue.subrange(1, 1);
    assert(rest =~= Seq::<MicroOp>::empty());
    let popped = Machine { queue: rest, ..issuing };
    lemma_effect_frame(ops[0], popped, bus);
    assert(step(m, bus).machine == effect(ops[0], popped, bus).0);
    assert(step(m, bus).machine =~= Machine {
        registers: registers_after(ops[0], m.registers, bus),
        running: !ops[0].stops(),
        stage: CPUStage::FetchDecode,
        current_instruction: instruction,
        queue: Seq::empty(),
    });
}

/// An instruction takes the machine cycles it declares.
///
/// Start from an engine that is running, in the fetch stage, with nothing
/// pending, and a bus that holds at the program counter the opcode of an
/// instruction of more than one cycle. Then every tick up to the last but one
/// of the declared cycles succeeds, in the execute stage until the last but
/// one. After the last but one the engine is in the fetch stage with exactly
/// the last micro-operation pending and the program counter off the opcode.
/// The last declared cycle is the tick that fetches the following opcode:
/// it reads where the last micro-operation leaves the program counter, which
/// is behind the whole instruction unless the instruction jumps. Where an
/// instruction can be issued from there, that tick succeeds, runs the last
/// micro-operation and leaves the following instruction in flight.
pub proof fn lemma_instruction_takes_its_cycles(m: Machine, bus: Bus)
    requires
        m.running,
        m.stage == CPUStage::FetchDecode,
        m.queue.len() == 0,
        issued(bus, m.registers) is Ok,
        declared_cycles_given(issued(bus, m.registers)->Ok_0.0, m.registers.flag_values())->Some_0
            >= 2,
    ensures
        ({
            let instruction = issued(bus, m.registers)->Ok_0.0;
            let ops = issued(bus, m.registers)->Ok_0.1;
            let flags = m.registers.flag_values();
            let cycles = declared_cycles_given(instruction, flags)->Some_0;
            let before_last = steps(m, bus, (cycles - 1) as nat);
            let fetch_at = ahead(before_last.machine, before_last.bus);
            &&& ops.len() == cycles
            &&& forall|ticks: nat|
                1 <= ticks < cycles - 1 ==> (#[trigger] steps(m, bus, ticks)).outcome is Ok
                    && steps(m, bus, ticks).machine.stage == CPUStage::Execute
            &&& before_last.outcome is Ok
            &&& before_last.machine.running
            &&& before_last.machine.stage == CPUStage::FetchDecode
            &&& before_last.machine.queue == seq![ops[cycles - 1]]
            &&& before_last.machine.current_instruction == instruction
            &&& before_last.machine.registers.pc != m.registers.pc
            &&& steps(m, bus, cycles) == step(before_last.machine, before_last.bus)
            &&& fetch_at == registers_after(
                ops[cycles - 1],
                before_last.machine.registers,
                before_last.bus,
            )
            &&& !is_jump_given(instruction, flags) ==> fetch_at.pc == moved(
                m.registers.pc,
                encoded_length(instruction),
            )
            &&& issued(before_last.bus, fetch_at) matches Ok((next, next_ops)) ==> {
                &&& steps(m, bus, cycles).outcome is Ok
                &&& steps(m, bus, cycles).machine == (Machine {
                    registers: fetch_at,
                    running: true,
                    stage: CPUStage::Execute,
                    current_instruction: next,
                    queue: next_ops,
                })
            }
        }),
{
    let instruction = issued(bus, m.registers)->Ok_0.0;
    let ops = issued(bus, m.registers)->Ok_0.1;
    let flags = m.registers.flag_values();
    let cycles = declared_cycles_given(instruction, flags)->Some_0;
    let alone = issued_alone(m, instruction, ops);
    lemma_issued_with_schedule(bus, m.registers);
    lemma_schedule_shape(instruction, flags);
    assert forall|ticks: nat| 1 <= ticks < cycles - 1 implies (#[trigger] steps(
        m,
        bus,
        ticks,
    )).outcome is Ok && steps(m, bus, ticks).machine.stage == CPUStage::Execute by {
        lemma_fresh_start(m, bus, ticks);
        lemma_in_flight(alone, bus, flags, ticks);
    }
    let working = (cycles - 1) as nat;
    lemma_fresh_start(m, bus, working);
    lemma_in_flight(alone, bus, flags, working);
    let before_last = steps(m, bus, working);
    assert(ops.subrange(working as int, ops.len() as int) =~= seq![ops[cycles - 1]]);
    lemma_effect_frame(ops[cycles - 1], before_last.machine, before_last.bus);
    lemma_moved_twice(m.registers.pc, advance(ops, working as int), ops[cycles - 1].pc_steps());
    lemma_last_beside_fetch(before_last.machine, before_last.bus);
}

/// An instruction that stops the engine does so in the tick that fetches
/// it, with the program counter behind the instruction. The engine is left in
/// the fetch stage with nothing pending, so that it fetches again once the
/// run flag is set; until then every tick does nothing.
pub proof fn lemma_stopping_instruction(m: Machine, bus: Bus, later: nat)
    requires
        m.running,
        m.stage == CPUStage::FetchDecode,
        m.queue.len() == 0,
        issued(bus, m.registers) is Ok,
        issued(bus, m.registers)->Ok_0.1[0].stops(),
    ensures
        step(m, bus) == (Ticked {
            machine: Machine {
                registers: RegisterFile {
                    pc: moved(m.registers.pc, encoded_length(issued(bus, m.registers)->Ok_0.0)),
                    ..m.registers
                },
                running: false,
                stage: CPUStage::FetchDecode,
                current_instruction: issued(bus, m.registers)->Ok_0.0,
                queue: Seq::empty(),
            },
            bus,
            outcome: Ok(()),
        }),
        steps(step(m, bus).machine, step(m, bus).bus, later) == step(m, bus),
{
    let instruction = issued(bus, m.registers)->Ok_0.0;
    lemma_issued_with_schedule(bus, m.registers);
    lemma_schedule_shape(instruction, m.registers.flag_values());
    lemma_single_cycle(m, bus);
    reveal(transfer);
    lemma_stopped_engine_is_idle(step(m, bus).machine, bus, later);
}

/// Ticks in a row can be counted from either end: the first tick, then the
/// rest, is the same as all but the last, then the last.
pub proof fn lemma_steps_from_the_front(m: Machine, bus: Bus, count: nat)
    ensures
        steps(m, bus, count + 1) == if step(m, bus).outcome is Err {
            step(m, bus)
        } else {
            steps(step(m, bus).machine, step(m, bus).bus, count)
        },
    decreases count,
{
    reveal_with_fuel(steps, 2);
    if count > 0 {
        lemma_steps_from_the_front(m, bus, (count - 1) as nat);
    }
}

/// Instructions back to back.
///
/// Start from an engine in the fetch stage with the last micro-operation of
/// one instruction pending, and a bus that holds, where that micro-operation
/// leaves the program counter, the opcode of an instruction of more than one
/// cycle. After as many ticks as that instruction declares cycles the engine
/// is where it was, one instruction on: in the fetch stage with exactly the
/// last micro-operation of that instruction pending.
pub proof fn lemma_back_to_back(m: Machine, bus: Bus)
    requires
        m.running,
        m.stage == CPUStage::FetchDecode,
        m.queue.len() == 1,
        !m.queue[0].hands_over,
        !m.queue[0].stops(),
        issued(bus, ahead(m, bus)) is Ok,
        declared_cycles_given(
            issued(bus, ahead(m, bus))->Ok_0.0,
            ahead(m, bus).flag_values(),
        )->Some_0 >= 2,
    ensures
        ({
            let instruction = issued(bus, ahead(m, bus))->Ok_0.0;
            let ops = issued(bus, ahead(m, bus))->Ok_0.1;
            let cycles = declared_cycles_given(instruction, ahead(m, bus).flag_values())->Some_0;
            let done = steps(m, bus, cycles);
            &&& ops.len() == cycles
            &&& done.outcome is Ok
            &&& done.machine.running
            &&& done.machine.stage == CPUStage::FetchDecode
            &&& done.machine.queue == seq![ops[cycles - 1]]
            &&& done.machine.current_instruction == instruction
        }),
{
    let registers = ahead(m, bus);
    let instruction = issued(bus, registers)->Ok_0.0;
    let ops = issued(bus, registers)->Ok_0.1;
    let flags = registers.flag_values();
    let cycles = declared_cycles_given(instruction, flags)->Some_0;
    lemma_issued_with_schedule(bus, registers);
    lemma_schedule_shape(instruction, flags);
    lemma_last_beside_fetch(m, bus);
    let fetched = step(m, bus);
    let working = (cycles - 1) as nat;
    lemma_steps_from_the_front(m, bus, working);
    lemma_in_flight(fetched.machine, fetched.bus, flags, working);
    assert(ops.subrange(working as int, ops.len() as int) =~= seq![ops[cycles - 1]]);
}

} // verus!
