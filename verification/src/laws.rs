//! Properties of the machine, proved from the definitions in [`crate::machine`].
//!
//! The engine in [`crate::cpu`] is proved to do what `step` and `run` say, so
//! each of these laws also holds of the engine.

use vstd::prelude::*;
use crate::isa::Instruction;
use crate::machine::{
    execute, faults, following, is_port, proceeds, run, step, waits, Action, Fault, State,
};
use crate::memory::{image_word, image_words, loaded, MIN_MEMORY_WORDS};
use crate::opcodes::{DIVMOD, DROP, DUP, IN, LIT, LOOP, RETURN, SUBTRACT, SWAP, WAIT};
use crate::word::{lemma_quotient_bound, lemma_quotient_remainder, quotient, remainder, wrap};

verus! {

/// Whether the word at the instruction pointer of `s` is `opcode`.
pub open spec fn at_instruction(s: State, opcode: i32) -> bool {
    s.holds(s.ip) && s.word(s.ip) == opcode
}

/// Encoding is the inverse of decoding: every word decodes to the instruction
/// that it encodes, and only the words outside the named range decode to calls.
pub proof fn lemma_decode_encode(word: i32)
    ensures
        Instruction::of_word(word).opcode() == word,
        Instruction::of_word(word) is Call <==> !Instruction::is_named(word),
        !Instruction::is_named(word) ==> Instruction::of_word(word) == Instruction::Call(word),
{
}

/// A step that does not execute its instruction changes nothing: after a
/// fault or a blocking `WAIT` the machine is as it was.
pub proof fn lemma_stopped_step_changes_nothing(s: State)
    ensures
        step(s).1 != Ok::<Action, Fault>(Action::Empty) ==> step(s).0 == s,
{
}

/// A run that stops early changes nothing in the state in which it stops:
/// the step that stopped it could be taken again with the same result.
pub proof fn lemma_run_stops_where_step_stops(s: State, budget: nat)
    ensures
        run(s, budget).1 != Ok::<Action, Fault>(Action::Empty) ==> step(run(s, budget).0) == run(
            s,
            budget,
        ),
    decreases budget,
{
    if budget > 0 {
        let (t, report) = step(s);
        if report == Ok::<Action, Fault>(Action::Empty) {
            lemma_run_stops_where_step_stops(t, (budget - 1) as nat);
        }
    }
}

/// A step keeps the machine well formed, and the memory keeps its length.
pub proof fn lemma_step_keeps_well_formed(s: State)
    requires
        s.well_formed(),
    ensures
        step(s).0.well_formed(),
        step(s).0.memory.len() == s.memory.len(),
{
}

/// A run keeps the machine well formed, and the memory keeps its length.
pub proof fn lemma_run_keeps_well_formed(s: State, budget: nat)
    requires
        s.well_formed(),
    ensures
        run(s, budget).0.well_formed(),
        run(s, budget).0.memory.len() == s.memory.len(),
    decreases budget,
{
    if budget > 0 {
        lemma_step_keeps_well_formed(s);
        lemma_run_keeps_well_formed(step(s).0, (budget - 1) as nat);
    }
}

/// A machine starts out well formed, whatever image it was created from.
pub proof fn lemma_initial_well_formed(image: Seq<u8>)
    ensures
        State::initial(loaded(image)).well_formed(),
{
}

/// Running in two parts is running once: a run that used up its budget can
/// be continued, and the two runs together are the run with both budgets.
pub proof fn lemma_run_split(s: State, first: nat, second: nat)
    ensures
        run(s, first + second) == if run(s, first).1 == Ok::<Action, Fault>(Action::Empty) {
            run(run(s, first).0, second)
        } else {
            run(s, first)
        },
    decreases first,
{
    if first > 0 {
        let (t, report) = step(s);
        if report == Ok::<Action, Fault>(Action::Empty) {
            lemma_run_split(t, (first - 1) as nat, second);
            assert(run(s, first + second) == run(t, (first + second - 1) as nat));
            assert((first - 1) as nat + second == (first + second - 1) as nat);
        }
    }
}

/// `LIT v; DUP; DROP` leaves `v` on top of what the data stack held: `LIT`
/// pushes `v`, `DUP` puts a second `v` on top of it, and `DROP` removes that
/// one again, so that the stack is back at the depth it had before `DUP`.
pub proof fn lemma_lit_dup_drop(s: State, v: i32)
    requires
        at_instruction(s, LIT),
        s.holds(following(s.ip)),
        s.word(following(s.ip)) == v,
        at_instruction(State { ip: wrap(s.ip + 2), ..s }, DUP),
        at_instruction(State { ip: wrap(s.ip + 3), ..s }, DROP),
    ensures
        run(s, 1) == proceeds(State { data: s.data.push(v), ip: wrap(s.ip + 2), ..s }),
        run(s, 2) == proceeds(State { data: s.data.push(v).push(v), ip: wrap(s.ip + 3), ..s }),
        run(s, 3) == proceeds(State { data: s.data.push(v), ip: wrap(s.ip + 4), ..s }),
        run(s, 3).0.data.len() == run(s, 1).0.data.len() == s.data.len() + 1,
        run(s, 3).0.data.last() == v,
{
    reveal_with_fuel(run, 4);
    let s1 = State { data: s.data.push(v), ip: wrap(s.ip + 2), ..s };
    let s2 = State { data: s.data.push(v).push(v), ip: wrap(s.ip + 3), ..s };
    let s3 = State { data: s.data.push(v), ip: wrap(s.ip + 4), ..s };
    assert(step(s).0 =~= s1);
    assert(step(s1).0 =~= s2);
    assert(s2.under(1) =~= s.data.push(v));
    assert(step(s2).0 =~= s3);
}

/// `SWAP` exchanges the two topmost words: a stack `[.., a, b]` with `b` on
/// top becomes `[.., b, a]` with `a` on top.
pub proof fn lemma_swap(s: State, rest: Seq<i32>, a: i32, b: i32)
    requires
        at_instruction(s, SWAP),
        s.data == rest.push(a).push(b),
    ensures
        step(s) == proceeds(State { data: rest.push(b).push(a), ip: following(s.ip), ..s }),
{
    assert(s.under(2) =~= rest);
    assert(step(s).0 =~= State { data: rest.push(b).push(a), ip: following(s.ip), ..s });
}

/// `SUBTRACT` takes the top of the stack from the word below it: a stack
/// `[.., b, a]` with `a` on top becomes `[.., b - a]`.
pub proof fn lemma_subtract(s: State, rest: Seq<i32>, b: i32, a: i32)
    requires
        at_instruction(s, SUBTRACT),
        s.data == rest.push(b).push(a),
    ensures
        step(s) == proceeds(State { data: rest.push(wrap(b - a)), ip: following(s.ip), ..s }),
{
    assert(s.under(2) =~= rest);
    assert(step(s).0 =~= State { data: rest.push(wrap(b - a)), ip: following(s.ip), ..s });
}

/// `DIVMOD` divides the word below the top by the top: a stack `[.., b, a]`
/// with `a` on top becomes `[.., b % a, b / a]` with the quotient on top, both
/// rounded toward zero. A zero divisor is a fault, and so is the one division
/// whose quotient is not a word.
pub proof fn lemma_divmod(s: State, rest: Seq<i32>, b: i32, a: i32)
    requires
        at_instruction(s, DIVMOD),
        s.data == rest.push(b).push(a),
    ensures
        a == 0 ==> step(s) == faults(s, Fault::DivisionByZero),
        a == -1 && b == i32::MIN ==> step(s) == faults(s, Fault::DivisionOverflow),
        a != 0 && !(a == -1 && b == i32::MIN) ==> step(s) == proceeds(
            State {
                data: rest.push(remainder(b as int, a as int) as i32).push(
                    quotient(b as int, a as int) as i32,
                ),
                ip: following(s.ip),
                ..s
            },
        ),
        a != 0 && !(a == -1 && b == i32::MIN) ==> {
            &&& i32::MIN <= quotient(b as int, a as int) <= i32::MAX
            &&& i32::MIN <= remainder(b as int, a as int) <= i32::MAX
            &&& b == a * quotient(b as int, a as int) + remainder(b as int, a as int)
        },
{
    assert(s.under(2) =~= rest);
    if a != 0 && !(a == -1 && b == i32::MIN) {
        assert(step(s).0 =~= State {
            data: rest.push(remainder(b as int, a as int) as i32).push(
                quotient(b as int, a as int) as i32,
            ),
            ip: following(s.ip),
            ..s
        });
        lemma_quotient_remainder(b as int, a as int);
        lemma_quotient_bound(b as int, a as int);
    }
}

/// `LOOP` counts the top of the stack down by one. While the new count is
/// positive it stays on the stack and execution continues at the address that
/// the operand holds; once it is not, the count is dropped and execution goes
/// on after the operand. So a count of 1 falls through and leaves nothing,
/// and a count of 3 is taken back with 2 on the stack.
pub proof fn lemma_loop(s: State, rest: Seq<i32>, count: i32)
    requires
        at_instruction(s, LOOP),
        s.data == rest.push(count),
    ensures
        count > i32::MIN ==> wrap(count - 1) == count - 1,
        wrap(count - 1) <= 0 ==> step(s) == proceeds(
            State { data: rest, ip: following(following(s.ip)), ..s },
        ),
        wrap(count - 1) > 0 && s.holds(following(s.ip)) ==> step(s) == proceeds(
            State { data: rest.push(wrap(count - 1)), ip: s.word(following(s.ip)), ..s },
        ),
        wrap(count - 1) > 0 && !s.holds(following(s.ip)) ==> step(s) == faults(
            s,
            Fault::OutOfBounds,
        ),
{
    assert(s.under(1) =~= rest);
    if wrap(count - 1) <= 0 {
        assert(step(s).0 =~= State { data: rest, ip: following(following(s.ip)), ..s });
    } else if s.holds(following(s.ip)) {
        assert(step(s).0 =~= State {
            data: rest.push(wrap(count - 1)),
            ip: s.word(following(s.ip)),
            ..s
        });
    }
}

/// A `LOOP` that jumps back to itself runs once for each unit of a positive
/// count: it jumps `count - 1` times, falls through on the last pass, and
/// leaves nothing of the count on the stack.
pub proof fn lemma_loop_runs_count_times(s: State, rest: Seq<i32>, count: i32)
    requires
        at_instruction(s, LOOP),
        s.holds(following(s.ip)),
        s.word(following(s.ip)) == s.ip,
        s.data == rest.push(count),
        count >= 1,
    ensures
        run(s, count as nat) == proceeds(
            State { data: rest, ip: following(following(s.ip)), ..s },
        ),
    decreases count,
{
    lemma_loop(s, rest, count);
    reveal_with_fuel(run, 2);
    if count > 1 {
        let t = State { data: rest.push((count - 1) as i32), ..s };
        assert(step(s).0 =~= t);
        lemma_loop_runs_count_times(t, rest, (count - 1) as i32);
    }
}

/// A word outside the named range in instruction position is a call: the
/// address of the call goes onto the address stack and execution continues at
/// the address that the word holds. A `RETURN` found there takes the address
/// off again and continues after the call.
pub proof fn lemma_call_and_return(s: State, target: i32)
    requires
        at_instruction(s, target),
        !Instruction::is_named(target),
    ensures
        step(s) == proceeds(State { address: s.address.push(s.ip), ip: target, ..s }),
        s.holds(target) && s.word(target) == RETURN ==> run(s, 2) == proceeds(
            State { ip: following(s.ip), ..s },
        ),
{
    reveal_with_fuel(run, 3);
    let called = State { address: s.address.push(s.ip), ip: target, ..s };
    assert(step(s).0 =~= called);
    if s.holds(target) && s.word(target) == RETURN {
        assert(called.address.drop_last() =~= s.address);
        assert(step(called).0 =~= State { ip: following(s.ip), ..s });
    }
}

/// `IN` reads a port and clears it: the port number on top of the stack is
/// replaced by the word in that port, and the port holds zero afterwards,
/// whatever it held. A port that was never written reads as zero. A number
/// that names no port reads as zero too, and no port changes.
pub proof fn lemma_in(s: State, rest: Seq<i32>, port: i32)
    requires
        at_instruction(s, IN),
        s.data == rest.push(port),
        s.well_formed(),
    ensures
        is_port(port) ==> step(s) == proceeds(
            State {
                data: rest.push(s.ports[port as int]),
                ports: s.ports.update(port as int, 0),
                ip: following(s.ip),
                ..s
            },
        ),
        is_port(port) ==> step(s).0.ports[port as int] == 0,
        !is_port(port) ==> step(s) == proceeds(
            State { data: rest.push(0), ip: following(s.ip), ..s },
        ),
{
    assert(s.under(1) =~= rest);
    if is_port(port) {
        assert(step(s).0 =~= State {
            data: rest.push(s.ports[port as int]),
            ports: s.ports.update(port as int, 0),
            ip: following(s.ip),
            ..s
        });
    } else {
        assert(step(s).0 =~= State { data: rest.push(0), ip: following(s.ip), ..s });
    }
}

/// `WAIT` blocks exactly while port 0 reads zero: the engine then reports
/// that the guest waits and the machine, its instruction pointer included,
/// stays as it is, however often it is tried. With any other word in port 0
/// the instruction does nothing and execution goes on after it.
pub proof fn lemma_wait(s: State, budget: nat)
    requires
        at_instruction(s, WAIT),
        budget > 0,
    ensures
        s.ports[0] == 0 ==> step(s) == waits(s) && run(s, budget) == waits(s),
        s.ports[0] != 0 ==> step(s) == proceeds(State { ip: following(s.ip), ..s }),
{
}

/// An instruction that needs a word from an empty stack faults with the
/// underflow of that stack.
pub proof fn lemma_underflow(s: State, instruction: Instruction)
    ensures
        s.data.len() == 0 && takes_data(instruction) ==> execute(s, instruction) == faults(
            s,
            Fault::DataStackUnderflow,
        ),
        s.address.len() == 0 && (instruction is Pop || instruction is Return) ==> execute(
            s,
            instruction,
        ) == faults(s, Fault::AddressStackUnderflow),
{
}

/// Whether `instruction` pops the data stack.
pub open spec fn takes_data(instruction: Instruction) -> bool {
    !(instruction is Nop || instruction is Lit || instruction is Pop || instruction is Jump
        || instruction is Return || instruction is Wait || instruction is Call)
}

/// An image of fewer words than the least memory size loads into a memory of
/// exactly that size; a larger image loads into a memory of exactly its own
/// number of words. The words of the image stand at the addresses from 0 on,
/// and every word after them is zero.
pub proof fn lemma_loaded(image: Seq<u8>)
    ensures
        image_words(image) <= MIN_MEMORY_WORDS ==> loaded(image).len() == MIN_MEMORY_WORDS,
        image_words(image) >= MIN_MEMORY_WORDS ==> loaded(image).len() == image_words(image),
        forall|addr: int|
            0 <= addr < image_words(image) ==> #[trigger] loaded(image)[addr] == image_word(
                image,
                addr,
            ),
        forall|addr: int|
            image_words(image) <= addr < loaded(image).len() ==> #[trigger] loaded(image)[addr]
                == 0,
{
}

} // verus!
