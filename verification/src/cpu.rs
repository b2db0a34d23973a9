//! The executable engine: a machine that is created from a binary image and
//! driven by its host one call at a time.

use vstd::prelude::*;
use crate::isa::{Condition, Instruction, Operation};
use crate::machine;
use crate::machine::{following, Action, Fault, State, PORT_COUNT};
use crate::memory::{loaded, Memory};
use crate::word::wrap;

verus! {

/// The sizes that a host may ask a machine for. Each is the true count
/// reduced to a word, so it is exact for every count up to `i32::MAX`.
#[derive(Clone, Copy, Debug, PartialEq, Eq)]
pub struct Info {
    pub memory_size: i32,
    pub data_stack_depth: i32,
    pub address_stack_depth: i32,
}

/// Exclusive access to the ports of a machine, for the host to read and write
/// them between two runs of the guest.
///
/// The host ends its access with [`Ports::release`], which marks the host as
/// ready in port 0. A host that may leave early calls it on every path.
pub struct Ports<'a> {
    pub ports: &'a mut [i32; PORT_COUNT],
}

impl<'a> Ports<'a> {
    /// The word in `port`.
    pub fn get(&self, port: usize) -> (word: i32)
        requires
            port < PORT_COUNT,
        ensures
            word == old(self.ports)@[port as int],
    {
        self.ports[port]
    }

    /// Writes `word` to `port`.
    pub fn set(&mut self, port: usize, word: i32)
        requires
            port < PORT_COUNT,
        ensures
            final(self).ports@ == old(self).ports@.update(port as int, word),
            *final(final(self).ports) == *final(old(self).ports),
    {
        self.ports[port] = word;
    }

    /// Ends the access: port 0 is set to 1, whatever it held, and the other
    /// ports keep what the host left in them.
    pub fn release(self)
        ensures
            final(self.ports)@ == old(self.ports)@.update(0, 1i32),
    {
        let ports = self.ports;
        ports[0] = 1;
    }
}

/// A virtual CPU: memory, stacks, instruction pointer and ports.
pub struct CPU {
    memory: Memory,
    ip: i32,
    ports: [i32; PORT_COUNT],
}

impl View for CPU {
    type V = State;

    closed spec fn view(&self) -> State {
        State {
            memory: self.memory.words(),
            data: self.memory.data(),
            address: self.memory.address(),
            ip: self.ip,
            ports: self.ports@,
        }
    }
}

impl CPU {
    /// Creates a machine around the memory that `image` loads into. The
    /// stacks are empty, every port is zero, and execution starts at address 0.
    pub fn new(image: &[u8]) -> (cpu: CPU)
        ensures
            cpu@ == State::initial(loaded(image@)),
    {
        CPU { memory: Memory::new(image), ip: 0, ports: [0; PORT_COUNT] }
    }

    /// Hands the ports and the data stack to the host. When the host is done
    /// with both, the machine holds what the host left in them; nothing else
    /// has changed.
    pub fn ports_and_stack(&mut self) -> (access: (Ports<'_>, &mut Vec<i32>))
        ensures
            access.0.ports@ == old(self)@.ports,
            access.1@ == old(self)@.data,
            final(self)@ == (State {
                data: final(access.1)@,
                ports: final(access.0.ports)@,
                ..old(self)@
            }),
    {
        (Ports { ports: &mut self.ports }, self.memory.data_stack())
    }

    /// The size of the memory and the depths of the two stacks.
    pub fn get_info(&self) -> (info: Info)
        ensures
            info.memory_size == wrap(self@.memory.len() as int),
            info.data_stack_depth == wrap(self@.data.len() as int),
            info.address_stack_depth == wrap(self@.address.len() as int),
    {
        Info {
            memory_size: word_of_count(self.memory.size()),
            data_stack_depth: word_of_count(self.memory.data_depth()),
            address_stack_depth: word_of_count(self.memory.address_depth()),
        }
    }

    /// Takes the top word off the data stack. An empty stack is an underflow
    /// and stays empty.
    pub fn pop_data(&mut self) -> (word: Result<i32, Fault>)
        ensures
            word == if old(self)@.data.len() > 0 {
                Ok::<i32, Fault>(old(self)@.data.last())
            } else {
                Err::<i32, Fault>(Fault::DataStackUnderflow)
            },
            final(self)@ == if old(self)@.data.len() > 0 {
                State { data: old(self)@.data.drop_last(), ..old(self)@ }
            } else {
                old(self)@
            },
    {
        match self.memory.pop_data() {
            Some(word) => Ok(word),
            None => Err(Fault::DataStackUnderflow),
        }
    }

    /// Puts `data` on top of the data stack.
    pub fn push_data(&mut self, data: i32)
        ensures
            final(self)@ == (State { data: old(self)@.data.push(data), ..old(self)@ }),
    {
        self.memory.push_data(data)
    }

    /// Takes the top word off the address stack. An empty stack is an
    /// underflow and stays empty.
    fn pop_address(&mut self) -> (word: Result<i32, Fault>)
        ensures
            word == if old(self)@.address.len() > 0 {
                Ok::<i32, Fault>(old(self)@.address.last())
            } else {
                Err::<i32, Fault>(Fault::AddressStackUnderflow)
            },
            final(self)@ == if old(self)@.address.len() > 0 {
                State { address: old(self)@.address.drop_last(), ..old(self)@ }
            } else {
                old(self)@
            },
    {
        match self.memory.pop_address() {
            Some(word) => Ok(word),
            None => Err(Fault::AddressStackUnderflow),
        }
    }

    /// Puts `data` on top of the address stack.
    fn push_address(&mut self, data: i32)
        ensures
            final(self)@ == (State { address: old(self)@.address.push(data), ..old(self)@ }),
    {
        self.memory.push_address(data)
    }

    /// The top of the data stack, which stays where it is.
    fn top(&self) -> (word: Result<i32, Fault>)
        ensures
            word == if self@.data.len() >= 1 {
                Ok::<i32, Fault>(self@.top())
            } else {
                Err::<i32, Fault>(Fault::DataStackUnderflow)
            },
    {
        match self.memory.peek_data(0) {
            Some(word) => Ok(word),
            None => Err(Fault::DataStackUnderflow),
        }
    }

    /// The two topmost words of the data stack, the top first. Both stay
    /// where they are.
    fn top_two(&self) -> (words: Result<(i32, i32), Fault>)
        ensures
            words == if self@.data.len() >= 2 {
                Ok::<(i32, i32), Fault>((self@.top(), self@.second()))
            } else {
                Err::<(i32, i32), Fault>(Fault::DataStackUnderflow)
            },
    {
        match self.memory.peek_data(1) {
            Some(second) => match self.memory.peek_data(0) {
                Some(top) => Ok((top, second)),
                None => Err(Fault::DataStackUnderflow),
            },
            None => Err(Fault::DataStackUnderflow),
        }
    }

    /// The top of the address stack, which stays where it is.
    fn return_address(&self) -> (word: Result<i32, Fault>)
        ensures
            word == if self@.address.len() >= 1 {
                Ok::<i32, Fault>(self@.address.last())
            } else {
                Err::<i32, Fault>(Fault::AddressStackUnderflow)
            },
    {
        match self.memory.peek_address() {
            Some(word) => Ok(word),
            None => Err(Fault::AddressStackUnderflow),
        }
    }

    /// The operand of the current instruction: the word after it.
    fn operand(&self) -> (word: Result<i32, Fault>)
        ensures
            word == if self@.holds(following(self@.ip)) {
                Ok::<i32, Fault>(self@.word(following(self@.ip)))
            } else {
                Err::<i32, Fault>(Fault::OutOfBounds)
            },
    {
        match self.memory.word_at(self.ip.wrapping_add(1)) {
            Some(word) => Ok(word),
            None => Err(Fault::OutOfBounds),
        }
    }

    /// Moves the instruction pointer `words` addresses on, for `words` of 1 or 2.
    fn advance(&mut self, words: i32)
        requires
            1 <= words <= 2,
        ensures
            final(self)@ == (State {
                ip: if words == 1 {
                    following(old(self)@.ip)
                } else {
                    following(following(old(self)@.ip))
                },
                ..old(self)@
            }),
    {
        self.ip = self.ip.wrapping_add(words);
    }

    /// Executes `JUMP`: execution continues at the address that the operand holds.
    fn jump(&mut self) -> (report: Result<Action, Fault>)
        ensures
            final(self)@ == machine::execute(old(self)@, Instruction::Jump).0,
            report == machine::execute(old(self)@, Instruction::Jump).1,
    {
        let target: i32 = self.operand()?;
        self.ip = target;
        Ok(Action::Empty)
    }

    /// Executes a conditional jump: the two topmost words are popped and
    /// compared, and execution continues at the address that the operand holds
    /// if `condition` holds of them, and after the operand if not.
    fn cond_stack_jump(&mut self, condition: Condition) -> (report: Result<Action, Fault>)
        ensures
            final(self)@ == machine::execute(old(self)@, Instruction::Branch(condition)).0,
            report == machine::execute(old(self)@, Instruction::Branch(condition)).1,
    {
        let (a, b) = self.top_two()?;
        if condition.test(a, b) {
            let target: i32 = self.operand()?;
            self.memory.drop_data(2);
            self.ip = target;
        } else {
            self.memory.drop_data(2);
            self.advance(2);
        }
        Ok(Action::Empty)
    }

    /// Executes a binary operation: the two topmost words are popped and the
    /// result of `operation` on them is pushed.
    fn pop_2_push_1(&mut self, operation: Operation) -> (report: Result<Action, Fault>)
        ensures
            final(self)@ == machine::execute(old(self)@, Instruction::Binary(operation)).0,
            report == machine::execute(old(self)@, Instruction::Binary(operation)).1,
    {
        let (a, b) = self.top_two()?;
        self.memory.drop_data(2);
        self.memory.push_data(operation.apply(a, b));
        self.advance(1);
        Ok(Action::Empty)
    }

    /// `NOP`: nothing but the move to the next instruction.
    fn nop(&mut self) -> (report: Result<Action, Fault>)
        ensures
            final(self)@ == machine::execute(old(self)@, Instruction::Nop).0,
            report == machine::execute(old(self)@, Instruction::Nop).1,
    {
        self.advance(1);
        Ok(Action::Empty)
    }

    /// `LIT`: the operand is pushed and skipped.
    fn lit(&mut self) -> (report: Result<Action, Fault>)
        ensures
            final(self)@ == machine::execute(old(self)@, Instruction::Lit).0,
            report == machine::execute(old(self)@, Instruction::Lit).1,
    {
        let literal: i32 = self.operand()?;
        self.memory.push_data(literal);
        self.advance(2);
        Ok(Action::Empty)
    }

    /// `DUP`: the top of the data stack is pushed once more.
    fn dup(&mut self) -> (report: Result<Action, Fault>)
        ensures
            final(self)@ == machine::execute(old(self)@, Instruction::Dup).0,
            report == machine::execute(old(self)@, Instruction::Dup).1,
    {
        let item: i32 = self.top()?;
        self.memory.push_data(item);
        self.advance(1);
        Ok(Action::Empty)
    }

    /// `DROP`: the top of the data stack is removed.
    fn discard(&mut self) -> (report: Result<Action, Fault>)
        ensures
            final(self)@ == machine::execute(old(self)@, Instruction::Drop).0,
            report == machine::execute(old(self)@, Instruction::Drop).1,
    {
        self.top()?;
        self.memory.drop_data(1);
        self.advance(1);
        Ok(Action::Empty)
    }

    /// `SWAP`: the two topmost words change places.
    fn swap(&mut self) -> (report: Result<Action, Fault>)
        ensures
            final(self)@ == machine::execute(old(self)@, Instruction::Swap).0,
            report == machine::execute(old(self)@, Instruction::Swap).1,
    {
        let (a, b) = self.top_two()?;
        self.memory.drop_data(2);
        self.memory.push_data(a);
        self.memory.push_data(b);
        self.advance(1);
        Ok(Action::Empty)
    }

    /// `PUSH`: the top of the data stack moves to the address stack.
    fn to_address_stack(&mut self) -> (report: Result<Action, Fault>)
        ensures
            final(self)@ == machine::execute(old(self)@, Instruction::Push).0,
            report == machine::execute(old(self)@, Instruction::Push).1,
    {
        let item: i32 = self.top()?;
        self.memory.drop_data(1);
        self.memory.push_address(item);
        self.advance(1);
        Ok(Action::Empty)
    }

    /// `POP`: the top of the address stack moves to the data stack.
    fn from_address_stack(&mut self) -> (report: Result<Action, Fault>)
        ensures
            final(self)@ == machine::execute(old(self)@, Instruction::Pop).0,
            report == machine::execute(old(self)@, Instruction::Pop).1,
    {
        let item: i32 = self.pop_address()?;
        self.memory.push_data(item);
        self.advance(1);
        Ok(Action::Empty)
    }

    /// `LOOP`: the top of the data stack is counted down by one; a positive
    /// count stays and the jump is taken, any other count is dropped.
    fn count_down(&mut self) -> (report: Result<Action, Fault>)
        ensures
            final(self)@ == machine::execute(old(self)@, Instruction::Loop).0,
            report == machine::execute(old(self)@, Instruction::Loop).1,
    {
        let count: i32 = self.top()?.wrapping_sub(1);
        if count > 0 {
            let target: i32 = self.operand()?;
            self.memory.drop_data(1);
            self.memory.push_data(count);
            self.ip = target;
        } else {
            self.memory.drop_data(1);
            self.advance(2);
        }
        Ok(Action::Empty)
    }

    /// `RETURN`: execution continues after the call whose address is on top
    /// of the address stack.
    fn leave(&mut self) -> (report: Result<Action, Fault>)
        ensures
            final(self)@ == machine::execute(old(self)@, Instruction::Return).0,
            report == machine::execute(old(self)@, Instruction::Return).1,
    {
        let caller: i32 = self.pop_address()?;
        self.ip = caller.wrapping_add(1);
        Ok(Action::Empty)
    }

    /// `FETCH`: the address on top of the data stack is replaced by the word
    /// that the memory holds there.
    fn fetch(&mut self) -> (report: Result<Action, Fault>)
        ensures
            final(self)@ == machine::execute(old(self)@, Instruction::Fetch).0,
            report == machine::execute(old(self)@, Instruction::Fetch).1,
    {
        let addr: i32 = self.top()?;
        match self.memory.word_at(addr) {
            Some(word) => {
                self.memory.drop_data(1);
                self.memory.push_data(word);
                self.advance(1);
                Ok(Action::Empty)
            },
            None => Err(Fault::OutOfBounds),
        }
    }

    /// `STORE`: the word below the top is written to the address on top, and
    /// both are popped.
    fn store(&mut self) -> (report: Result<Action, Fault>)
        ensures
            final(self)@ == machine::execute(old(self)@, Instruction::Store).0,
            report == machine::execute(old(self)@, Instruction::Store).1,
    {
        let (addr, word) = self.top_two()?;
        if !self.memory.store(addr, word) {
            return Err(Fault::OutOfBounds);
        }
        self.memory.drop_data(2);
        self.advance(1);
        Ok(Action::Empty)
    }

    /// `DIVMOD`: the two topmost words are replaced by the remainder and, on
    /// top of it, the quotient of the lower by the upper.
    fn divmod(&mut self) -> (report: Result<Action, Fault>)
        ensures
            final(self)@ == machine::execute(old(self)@, Instruction::DivMod).0,
            report == machine::execute(old(self)@, Instruction::DivMod).1,
    {
        let (a, b) = self.top_two()?;
        if a == 0 {
            return Err(Fault::DivisionByZero);
        }
        if b == i32::MIN && a == -1 {
            return Err(Fault::DivisionOverflow);
        }
        self.memory.drop_data(2);
        self.memory.push_data(b % a);
        self.memory.push_data(b / a);
        self.advance(1);
        Ok(Action::Empty)
    }

    /// `ZERO_EXIT`: a zero on top of the data stack is dropped and the
    /// routine left as by `RETURN`; any other word stays.
    fn zero_exit(&mut self) -> (report: Result<Action, Fault>)
        ensures
            final(self)@ == machine::execute(old(self)@, Instruction::ZeroExit).0,
            report == machine::execute(old(self)@, Instruction::ZeroExit).1,
    {
        if self.top()? == 0 {
            let caller: i32 = self.return_address()?;
            self.memory.pop_address();
            self.memory.drop_data(1);
            self.ip = caller.wrapping_add(1);
        } else {
            self.advance(1);
        }
        Ok(Action::Empty)
    }

    /// `INC`: the top of the data stack grows by one.
    fn inc(&mut self) -> (report: Result<Action, Fault>)
        ensures
            final(self)@ == machine::execute(old(self)@, Instruction::Inc).0,
            report == machine::execute(old(self)@, Instruction::Inc).1,
    {
        let item: i32 = self.top()?;
        self.memory.drop_data(1);
        self.memory.push_data(item.wrapping_add(1));
        self.advance(1);
        Ok(Action::Empty)
    }

    /// `DEC`: the top of the data stack shrinks by one.
    fn dec(&mut self) -> (report: Result<Action, Fault>)
        ensures
            final(self)@ == machine::execute(old(self)@, Instruction::Dec).0,
            report == machine::execute(old(self)@, Instruction::Dec).1,
    {
        let item: i32 = self.top()?;
        self.memory.drop_data(1);
        self.memory.push_data(item.wrapping_sub(1));
        self.advance(1);
        Ok(Action::Empty)
    }

    /// `IN`: the port number on top of the data stack is replaced by the word
    /// in that port, and the port is cleared.
    fn input(&mut self) -> (report: Result<Action, Fault>)
        ensures
            final(self)@ == machine::execute(old(self)@, Instruction::In).0,
            report == machine::execute(old(self)@, Instruction::In).1,
    {
        let port: i32 = self.top()?;
        self.memory.drop_data(1);
        if 0 <= port && (port as usize) < PORT_COUNT {
            self.memory.push_data(self.ports[port as usize]);
            self.ports[port as usize] = 0;
        } else {
            self.memory.push_data(0);
        }
        self.advance(1);
        Ok(Action::Empty)
    }

    /// `OUT`: the word below the top is written to the port on top, and both
    /// are popped.
    fn output(&mut self) -> (report: Result<Action, Fault>)
        ensures
            final(self)@ == machine::execute(old(self)@, Instruction::Out).0,
            report == machine::execute(old(self)@, Instruction::Out).1,
    {
        let (port, word) = self.top_two()?;
        self.memory.drop_data(2);
        if 0 <= port && (port as usize) < PORT_COUNT {
            self.ports[port as usize] = word;
        }
        self.advance(1);
        Ok(Action::Empty)
    }

    /// `WAIT`: the guest yields to the host while port 0 reads zero.
    fn wait(&mut self) -> (report: Result<Action, Fault>)
        ensures
            final(self)@ == machine::execute(old(self)@, Instruction::Wait).0,
            report == machine::execute(old(self)@, Instruction::Wait).1,
    {
        if self.ports[0] == 0 {
            return Ok(Action::Wait);
        }
        self.advance(1);
        Ok(Action::Empty)
    }

    /// A call: the address of the calling instruction goes onto the address
    /// stack and execution continues at `target`.
    fn call(&mut self, target: i32) -> (report: Result<Action, Fault>)
        ensures
            final(self)@ == machine::execute(old(self)@, Instruction::Call(target)).0,
            report == machine::execute(old(self)@, Instruction::Call(target)).1,
    {
        self.push_address(self.ip);
        self.ip = target;
        Ok(Action::Empty)
    }

    /// Executes `instruction` as the instruction that the instruction pointer
    /// is on.
    fn execute(&mut self, instruction: Instruction) -> (report: Result<Action, Fault>)
        ensures
            final(self)@ == machine::execute(old(self)@, instruction).0,
            report == machine::execute(old(self)@, instruction).1,
    {
        match instruction {
            Instruction::Nop => self.nop(),
            Instruction::Lit => self.lit(),
            Instruction::Dup => self.dup(),
            Instruction::Drop => self.discard(),
            Instruction::Swap => self.swap(),
            Instruction::Push => self.to_address_stack(),
            Instruction::Pop => self.from_address_stack(),
            Instruction::Loop => self.count_down(),
            Instruction::Jump => self.jump(),
            Instruction::Return => self.leave(),
            Instruction::Branch(condition) => self.cond_stack_jump(condition),
            Instruction::Fetch => self.fetch(),
            Instruction::Store => self.store(),
            Instruction::Binary(operation) => self.pop_2_push_1(operation),
            Instruction::DivMod => self.divmod(),
            Instruction::ZeroExit => self.zero_exit(),
            Instruction::Inc => self.inc(),
            Instruction::Dec => self.dec(),
            Instruction::In => self.input(),
            Instruction::Out => self.output(),
            Instruction::Wait => self.wait(),
            Instruction::Call(target) => self.call(target),
        }
    }

    /// Executes the instruction at the instruction pointer.
    ///
    /// The result is `Ok(Action::Empty)` when the instruction was executed,
    /// `Ok(Action::Wait)` when it is a `WAIT` that blocks, and the fault when
    /// it cannot be executed; in the last two cases the machine is unchanged.
    pub fn step(&mut self) -> (report: Result<Action, Fault>)
        ensures
            final(self)@ == machine::step(old(self)@).0,
            report == machine::step(old(self)@).1,
    {
        match self.memory.word_at(self.ip) {
            Some(word) => self.execute(Instruction::decode(word)),
            None => Err(Fault::OutOfBounds),
        }
    }

    /// Runs the guest for at most `budget` instructions.
    ///
    /// Execution goes on until the guest waits (`Ok(Action::Wait)`), an
    /// instruction faults (the fault), or `budget` instructions were executed
    /// (`Ok(Action::Empty)`). A host that sets no limit of its own calls again
    /// for as long as the result is `Ok(Action::Empty)`.
    pub fn next(&mut self, budget: u64) -> (report: Result<Action, Fault>)
        ensures
            final(self)@ == machine::run(old(self)@, budget as nat).0,
            report == machine::run(old(self)@, budget as nat).1,
    {
        let mut left: u64 = budget;
        while left > 0
            invariant
                machine::run(self@, left as nat) == machine::run(old(self)@, budget as nat),
            decreases left,
        {
            match self.step() {
                Ok(Action::Empty) => {
                    left -= 1;
                },
                report => {
                    return report;
                },
            }
        }
        Ok(Action::Empty)
    }
}

/// A count as a word: `count` reduced modulo 2^32 into the word range.
fn word_of_count(count: usize) -> (word: i32)
    ensures
        word == wrap(count as int),
{
    let word: i32 = #[verifier::truncate] (count as i32);
    proof {
        let wide: u64 = count as u64;
        assert(count as i32 == wide as i32) by (bit_vector)
            requires
                wide == count as u64,
        ;
        assert(wide as i32 == (if wide % 0x1_0000_0000 >= 0x8000_0000 {
            (wide % 0x1_0000_0000 - 0x1_0000_0000) as i32
        } else {
            (wide % 0x1_0000_0000) as i32
        })) by (bit_vector);
    }
    word
}

} // verus!
