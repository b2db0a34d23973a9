//! The machine as a mathematical object: its state, and the effect of one
//! instruction and of a bounded run on that state.
//!
//! The executable engine is proved against the functions of this module, so
//! they are the definition of what the machine does.

use vstd::prelude::*;
use crate::isa::Instruction;
use crate::memory::MIN_MEMORY_WORDS;
use crate::word::{quotient, remainder, wrap};

verus! {

/// The number of ports.
pub const PORT_COUNT: usize = 12;

/// What the host has to do when the engine hands control back.
#[derive(Clone, Copy, Debug, PartialEq, Eq)]
pub enum Action {
    /// Nothing: the engine stopped only because it had done the work asked of it.
    Empty,
    /// The guest executes `WAIT` and port 0 reads zero. The instruction
    /// pointer stays on the `WAIT`, which is tried again on the next call.
    Wait,
}

/// The violations that end execution. An instruction that faults leaves the
/// machine as it found it.
#[derive(Clone, Copy, Debug, PartialEq, Eq)]
pub enum Fault {
    /// An instruction needs more words than the data stack holds.
    DataStackUnderflow,
    /// An instruction needs a word from the empty address stack.
    AddressStackUnderflow,
    /// The instruction pointer, an operand address or the address given to
    /// `FETCH` or `STORE` lies outside memory.
    OutOfBounds,
    /// `DIVMOD` with a zero divisor.
    DivisionByZero,
    /// `DIVMOD` of the least word by -1, whose quotient is not a word.
    DivisionOverflow,
}

/// The state of the machine. The top of a stack is the end of its sequence.
#[verifier::ext_equal]
pub struct State {
    pub memory: Seq<i32>,
    pub data: Seq<i32>,
    pub address: Seq<i32>,
    pub ip: i32,
    pub ports: Seq<i32>,
}

/// A state together with what the engine reports on reaching it.
pub type Outcome = (State, Result<Action, Fault>);

/// The address after `addr`.
pub open spec fn following(addr: i32) -> i32 {
    wrap(addr + 1)
}

/// Whether `port` names one of the ports.
pub open spec fn is_port(port: i32) -> bool {
    0 <= port < PORT_COUNT
}

impl State {
    /// What holds of every state that a machine can be in: the memory has at
    /// least the least size, and there are twelve ports.
    pub open spec fn well_formed(self) -> bool {
        &&& self.memory.len() >= MIN_MEMORY_WORDS
        &&& self.ports.len() == PORT_COUNT
    }

    /// Whether `addr` is an address of the memory.
    pub open spec fn holds(self, addr: i32) -> bool {
        0 <= addr < self.memory.len()
    }

    /// The memory word at `addr`.
    pub open spec fn word(self, addr: i32) -> i32
        recommends
            self.holds(addr),
    {
        self.memory[addr as int]
    }

    /// The top of the data stack: the word that is popped first.
    pub open spec fn top(self) -> i32
        recommends
            self.data.len() >= 1,
    {
        self.data[self.data.len() - 1]
    }

    /// The word below the top of the data stack: the one popped second.
    pub open spec fn second(self) -> i32
        recommends
            self.data.len() >= 2,
    {
        self.data[self.data.len() - 2]
    }

    /// The data stack without its `count` topmost words.
    pub open spec fn under(self, count: int) -> Seq<i32>
        recommends
            0 <= count <= self.data.len(),
    {
        self.data.take(self.data.len() - count)
    }

    /// The state of a machine that was just created around `memory`.
    pub open spec fn initial(memory: Seq<i32>) -> State {
        State {
            memory,
            data: Seq::empty(),
            address: Seq::empty(),
            ip: 0,
            ports: Seq::new(PORT_COUNT as nat, |port: int| 0i32),
        }
    }
}

/// The instruction was executed and left the machine in `s`.
pub open spec fn proceeds(s: State) -> Outcome {
    (s, Ok(Action::Empty))
}

/// The guest waits in `s`.
pub open spec fn waits(s: State) -> Outcome {
    (s, Ok(Action::Wait))
}

/// Execution ends in `s` with `fault`.
pub open spec fn faults(s: State, fault: Fault) -> Outcome {
    (s, Err(fault))
}

/// The effect of `instruction`, found at the instruction pointer of `s`.
///
/// Below, `next` is the address after the instruction, which holds the
/// operand of `LIT`, `LOOP` and the jumps; an instruction that takes a jump
/// continues at the address that its operand holds. On the data stack `top`
/// is the word popped first and `second` the word popped after it.
pub open spec fn execute(s: State, instruction: Instruction) -> Outcome {
    let next = following(s.ip);
    let depth = s.data.len();
    match instruction {
        Instruction::Nop => proceeds(State { ip: next, ..s }),
        Instruction::Lit => if !s.holds(next) {
            faults(s, Fault::OutOfBounds)
        } else {
            proceeds(State { data: s.data.push(s.word(next)), ip: following(next), ..s })
        },
        Instruction::Dup => if depth < 1 {
            faults(s, Fault::DataStackUnderflow)
        } else {
            proceeds(State { data: s.data.push(s.top()), ip: next, ..s })
        },
        Instruction::Drop => if depth < 1 {
            faults(s, Fault::DataStackUnderflow)
        } else {
            proceeds(State { data: s.under(1), ip: next, ..s })
        },
        Instruction::Swap => if depth < 2 {
            faults(s, Fault::DataStackUnderflow)
        } else {
            proceeds(State { data: s.under(2).push(s.top()).push(s.second()), ip: next, ..s })
        },
        Instruction::Push => if depth < 1 {
            faults(s, Fault::DataStackUnderflow)
        } else {
            proceeds(
                State { data: s.under(1), address: s.address.push(s.top()), ip: next, ..s },
            )
        },
        Instruction::Pop => if s.address.len() < 1 {
            faults(s, Fault::AddressStackUnderflow)
        } else {
            proceeds(
                State {
                    data: s.data.push(s.address.last()),
                    address: s.address.drop_last(),
                    ip: next,
                    ..s
                },
            )
        },
        Instruction::Loop => if depth < 1 {
            faults(s, Fault::DataStackUnderflow)
        } else {
            let count = wrap(s.top() - 1);
            if count <= 0 {
                proceeds(State { data: s.under(1), ip: following(next), ..s })
            } else if !s.holds(next) {
                faults(s, Fault::OutOfBounds)
            } else {
                proceeds(State { data: s.under(1).push(count), ip: s.word(next), ..s })
            }
        },
        Instruction::Jump => if !s.holds(next) {
            faults(s, Fault::OutOfBounds)
        } else {
            proceeds(State { ip: s.word(next), ..s })
        },
        Instruction::Return => if s.address.len() < 1 {
            faults(s, Fault::AddressStackUnderflow)
        } else {
            proceeds(
                State { address: s.address.drop_last(), ip: following(s.address.last()), ..s },
            )
        },
        Instruction::Branch(condition) => if depth < 2 {
            faults(s, Fault::DataStackUnderflow)
        } else if !condition.holds(s.top(), s.second()) {
            proceeds(State { data: s.under(2), ip: following(next), ..s })
        } else if !s.holds(next) {
            faults(s, Fault::OutOfBounds)
        } else {
            proceeds(State { data: s.under(2), ip: s.word(next), ..s })
        },
        Instruction::Fetch => if depth < 1 {
            faults(s, Fault::DataStackUnderflow)
        } else if !s.holds(s.top()) {
            faults(s, Fault::OutOfBounds)
        } else {
            proceeds(State { data: s.under(1).push(s.word(s.top())), ip: next, ..s })
        },
        Instruction::Store => if depth < 2 {
            faults(s, Fault::DataStackUnderflow)
        } else if !s.holds(s.top()) {
            faults(s, Fault::OutOfBounds)
        } else {
            proceeds(
                State {
                    memory: s.memory.update(s.top() as int, s.second()),
                    data: s.under(2),
                    ip: next,
                    ..s
                },
            )
        },
        Instruction::Binary(operation) => if depth < 2 {
            faults(s, Fault::DataStackUnderflow)
        } else {
            proceeds(
                State {
                    data: s.under(2).push(operation.result(s.top(), s.second())),
                    ip: next,
                    ..s
                },
            )
        },
        Instruction::DivMod => if depth < 2 {
            faults(s, Fault::DataStackUnderflow)
        } else if s.top() == 0 {
            faults(s, Fault::DivisionByZero)
        } else if s.second() == i32::MIN && s.top() == -1 {
            faults(s, Fault::DivisionOverflow)
        } else {
            proceeds(
                State {
                    data: s.under(2).push(remainder(s.second() as int, s.top() as int) as i32).push(
                        quotient(s.second() as int, s.top() as int) as i32,
                    ),
                    ip: next,
                    ..s
                },
            )
        },
        Instruction::ZeroExit => if depth < 1 {
            faults(s, Fault::DataStackUnderflow)
        } else if s.top() != 0 {
            proceeds(State { ip: next, ..s })
        } else if s.address.len() < 1 {
            faults(s, Fault::AddressStackUnderflow)
        } else {
            proceeds(
                State {
                    data: s.under(1),
                    address: s.address.drop_last(),
                    ip: following(s.address.last()),
                    ..s
                },
            )
        },
        Instruction::Inc => if depth < 1 {
            faults(s, Fault::DataStackUnderflow)
        } else {
            proceeds(State { data: s.under(1).push(wrap(s.top() + 1)), ip: next, ..s })
        },
        Instruction::Dec => if depth < 1 {
            faults(s, Fault::DataStackUnderflow)
        } else {
            proceeds(State { data: s.under(1).push(wrap(s.top() - 1)), ip: next, ..s })
        },
        Instruction::In => if depth < 1 {
            faults(s, Fault::DataStackUnderflow)
        } else if !is_port(s.top()) {
            proceeds(State { data: s.under(1).push(0), ip: next, ..s })
        } else {
            proceeds(
                State {
                    data: s.under(1).push(s.ports[s.top() as int]),
                    ports: s.ports.update(s.top() as int, 0),
                    ip: next,
                    ..s
                },
            )
        },
        Instruction::Out => if depth < 2 {
            faults(s, Fault::DataStackUnderflow)
        } else if !is_port(s.top()) {
            proceeds(State { data: s.under(2), ip: next, ..s })
        } else {
            proceeds(
                State {
                    data: s.under(2),
                    ports: s.ports.update(s.top() as int, s.second()),
                    ip: next,
                    ..s
                },
            )
        },
        Instruction::Wait => if s.ports[0] == 0 {
            waits(s)
        } else {
            proceeds(State { ip: next, ..s })
        },
        Instruction::Call(target) => proceeds(
            State { address: s.address.push(s.ip), ip: target, ..s },
        ),
    }
}

/// The effect of one step: the word at the instruction pointer is decoded
/// and executed. An instruction pointer outside memory is a fault.
pub open spec fn step(s: State) -> Outcome {
    if !s.holds(s.ip) {
        faults(s, Fault::OutOfBounds)
    } else {
        execute(s, Instruction::of_word(s.word(s.ip)))
    }
}

/// The effect of running for at most `budget` steps: execution goes on
/// until the guest waits, an instruction faults, or the budget is used up.
pub open spec fn run(s: State, budget: nat) -> Outcome
    decreases budget,
{
    if budget == 0 {
        proceeds(s)
    } else {
        let (t, report) = step(s);
        if report == Ok::<Action, Fault>(Action::Empty) {
            run(t, (budget - 1) as nat)
        } else {
            (t, report)
        }
    }
}

} // verus!
