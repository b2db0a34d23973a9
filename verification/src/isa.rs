//! The instruction set: what the word at the instruction pointer stands for.

use vstd::prelude::*;
use crate::opcodes::{
    NOP, LIT, DUP, DROP, SWAP, PUSH, POP, LOOP, JUMP, RETURN, GT_JUMP, LT_JUMP, NE_JUMP,
    EQ_JUMP, FETCH, STORE, ADD, SUBTRACT, MULTIPLY, DIVMOD, AND, OR, XOR, SHL, SHR, ZERO_EXIT,
    INC, DEC, IN, OUT, WAIT,
};
use crate::word::{shift_left, shift_right, wrap};

verus! {

/// The operations that replace the two topmost words of the data stack by one.
///
/// In what follows `a` is the word popped first (the top of the stack) and `b`
/// the word popped second.
#[derive(Clone, Copy, Debug, PartialEq, Eq)]
pub enum Operation {
    Add,
    Subtract,
    Multiply,
    And,
    Or,
    Xor,
    ShiftLeft,
    ShiftRight,
}

impl Operation {
    /// The word that the operation leaves for the operands `a` and `b`.
    /// Sums, differences and products wrap around; a shift moves `b` by the
    /// low five bits of `a`.
    pub open spec fn result(self, a: i32, b: i32) -> i32 {
        match self {
            Operation::Add => wrap(a + b),
            Operation::Subtract => wrap(b - a),
            Operation::Multiply => wrap(a * b),
            Operation::And => a & b,
            Operation::Or => a | b,
            Operation::Xor => a ^ b,
            Operation::ShiftLeft => shift_left(b, a),
            Operation::ShiftRight => shift_right(b, a),
        }
    }

    /// Computes the operation on `a` and `b`.
    pub fn apply(self, a: i32, b: i32) -> (r: i32)
        ensures
            r == self.result(a, b),
    {
        match self {
            Operation::Add => a.wrapping_add(b),
            Operation::Subtract => b.wrapping_sub(a),
            Operation::Multiply => a.wrapping_mul(b),
            Operation::And => a & b,
            Operation::Or => a | b,
            Operation::Xor => a ^ b,
            Operation::ShiftLeft => b.wrapping_shl(a as u32),
            Operation::ShiftRight => (b as u32).wrapping_shr(a as u32) as i32,
        }
    }
}

/// The comparisons that decide a conditional jump, on the operands `a`
/// (popped first) and `b` (popped second).
#[derive(Clone, Copy, Debug, PartialEq, Eq)]
pub enum Condition {
    Greater,
    Less,
    NotEqual,
    Equal,
}

impl Condition {
    /// Whether the jump is taken for the operands `a` and `b`.
    pub open spec fn holds(self, a: i32, b: i32) -> bool {
        match self {
            Condition::Greater => b > a,
            Condition::Less => b < a,
            Condition::NotEqual => a != b,
            Condition::Equal => a == b,
        }
    }

    /// Evaluates the comparison on `a` and `b`.
    pub fn test(self, a: i32, b: i32) -> (taken: bool)
        ensures
            taken == self.holds(a, b),
    {
        match self {
            Condition::Greater => b > a,
            Condition::Less => b < a,
            Condition::NotEqual => a != b,
            Condition::Equal => a == b,
        }
    }
}

/// A decoded instruction: one of the named instructions, or a call to the
/// address that the instruction word holds.
#[derive(Clone, Copy, Debug, PartialEq, Eq)]
pub enum Instruction {
    Nop,
    Lit,
    Dup,
    Drop,
    Swap,
    Push,
    Pop,
    Loop,
    Jump,
    Return,
    Branch(Condition),
    Fetch,
    Store,
    Binary(Operation),
    DivMod,
    ZeroExit,
    Inc,
    Dec,
    In,
    Out,
    Wait,
    Call(i32),
}

impl Instruction {
    /// The word that encodes the instruction.
    pub open spec fn opcode(self) -> i32 {
        match self {
            Instruction::Nop => NOP,
            Instruction::Lit => LIT,
            Instruction::Dup => DUP,
            Instruction::Drop => DROP,
            Instruction::Swap => SWAP,
            Instruction::Push => PUSH,
            Instruction::Pop => POP,
            Instruction::Loop => LOOP,
            Instruction::Jump => JUMP,
            Instruction::Return => RETURN,
            Instruction::Branch(Condition::Greater) => GT_JUMP,
            Instruction::Branch(Condition::Less) => LT_JUMP,
            Instruction::Branch(Condition::NotEqual) => NE_JUMP,
            Instruction::Branch(Condition::Equal) => EQ_JUMP,
            Instruction::Fetch => FETCH,
            Instruction::Store => STORE,
            Instruction::Binary(Operation::Add) => ADD,
            Instruction::Binary(Operation::Subtract) => SUBTRACT,
            Instruction::Binary(Operation::Multiply) => MULTIPLY,
            Instruction::DivMod => DIVMOD,
            Instruction::Binary(Operation::And) => AND,
            Instruction::Binary(Operation::Or) => OR,
            Instruction::Binary(Operation::Xor) => XOR,
            Instruction::Binary(Operation::ShiftLeft) => SHL,
            Instruction::Binary(Operation::ShiftRight) => SHR,
            Instruction::ZeroExit => ZERO_EXIT,
            Instruction::Inc => INC,
            Instruction::Dec => DEC,
            Instruction::In => IN,
            Instruction::Out => OUT,
            Instruction::Wait => WAIT,
            Instruction::Call(target) => target,
        }
    }

    /// Whether `word` encodes a named instruction rather than a call.
    pub open spec fn is_named(word: i32) -> bool {
        NOP <= word <= WAIT
    }

    /// The instruction that `word` encodes. Every word encodes one: a word
    /// outside the named range is a call to the address it holds.
    pub open spec fn of_word(word: i32) -> Instruction {
        if word == NOP {
            Instruction::Nop
        } else if word == LIT {
            Instruction::Lit
        } else if word == DUP {
            Instruction::Dup
        } else if word == DROP {
            Instruction::Drop
        } else if word == SWAP {
            Instruction::Swap
        } else if word == PUSH {
            Instruction::Push
        } else if word == POP {
            Instruction::Pop
        } else if word == LOOP {
            Instruction::Loop
        } else if word == JUMP {
            Instruction::Jump
        } else if word == RETURN {
            Instruction::Return
        } else if word == GT_JUMP {
            Instruction::Branch(Condition::Greater)
        } else if word == LT_JUMP {
            Instruction::Branch(Condition::Less)
        } else if word == NE_JUMP {
            Instruction::Branch(Condition::NotEqual)
        } else if word == EQ_JUMP {
            Instruction::Branch(Condition::Equal)
        } else if word == FETCH {
            Instruction::Fetch
        } else if word == STORE {
            Instruction::Store
        } else if word == ADD {
            Instruction::Binary(Operation::Add)
        } else if word == SUBTRACT {
            Instruction::Binary(Operation::Subtract)
        } else if word == MULTIPLY {
            Instruction::Binary(Operation::Multiply)
        } else if word == DIVMOD {
            Instruction::DivMod
        } else if word == AND {
            Instruction::Binary(Operation::And)
        } else if word == OR {
            Instruction::Binary(Operation::Or)
        } else if word == XOR {
            Instruction::Binary(Operation::Xor)
        } else if word == SHL {
            Instruction::Binary(Operation::ShiftLeft)
        } else if word == SHR {
            Instruction::Binary(Operation::ShiftRight)
        } else if word == ZERO_EXIT {
            Instruction::ZeroExit
        } else if word == INC {
            Instruction::Inc
        } else if word == DEC {
            Instruction::Dec
        } else if word == IN {
            Instruction::In
        } else if word == OUT {
            Instruction::Out
        } else if word == WAIT {
            Instruction::Wait
        } else {
            Instruction::Call(word)
        }
    }

    /// Decodes the word found in instruction position.
    pub fn decode(word: i32) -> (instruction: Instruction)
        ensures
            instruction == Instruction::of_word(word),
            instruction.opcode() == word,
            instruction is Call <==> !Instruction::is_named(word),
    {
        match word {
            0 => Instruction::Nop,
            1 => Instruction::Lit,
            2 => Instruction::Dup,
            3 => Instruction::Drop,
            4 => Instruction::Swap,
            5 => Instruction::Push,
            6 => Instruction::Pop,
            7 => Instruction::Loop,
            8 => Instruction::Jump,
            9 => Instruction::Return,
            10 => Instruction::Branch(Condition::Greater),
            11 => Instruction::Branch(Condition::Less),
            12 => Instruction::Branch(Condition::NotEqual),
            13 => Instruction::Branch(Condition::Equal),
            14 => Instruction::Fetch,
            15 => Instruction::Store,
            16 => Instruction::Binary(Operation::Add),
            17 => Instruction::Binary(Operation::Subtract),
            18 => Instruction::Binary(Operation::Multiply),
            19 => Instruction::DivMod,
            20 => Instruction::Binary(Operation::And),
            21 => Instruction::Binary(Operation::Or),
            22 => Instruction::Binary(Operation::Xor),
            23 => Instruction::Binary(Operation::ShiftLeft),
            24 => Instruction::Binary(Operation::ShiftRight),
            25 => Instruction::ZeroExit,
            26 => Instruction::Inc,
            27 => Instruction::Dec,
            28 => Instruction::In,
            29 => Instruction::Out,
            30 => Instruction::Wait,
            target => Instruction::Call(target),
        }
    }
}

/// The mnemonics of the named instructions, in the order of their encoding.
pub open spec fn mnemonics() -> Seq<Seq<char>> {
    seq![
        "NOP"@,
        "LIT"@,
        "DUP"@,
        "DROP"@,
        "SWAP"@,
        "PUSH"@,
        "POP"@,
        "LOOP"@,
        "JUMP"@,
        "RETURN"@,
        "GT_JUMP"@,
        "LT_JUMP"@,
        "NE_JUMP"@,
        "EQ_JUMP"@,
        "FETCH"@,
        "STORE"@,
        "ADD"@,
        "SUBTRACT"@,
        "MULTIPLY"@,
        "DIVMOD"@,
        "AND"@,
        "OR"@,
        "XOR"@,
        "SHL"@,
        "SHR"@,
        "ZERO_EXIT"@,
        "INC"@,
        "DEC"@,
        "IN"@,
        "OUT"@,
        "WAIT"@,
    ]
}

/// The label under which a trace shows the instruction word `opcode`: the
/// mnemonic of a named instruction, and `CALL` for every other word.
pub open spec fn mnemonic(opcode: i32) -> Seq<char> {
    if Instruction::is_named(opcode) {
        mnemonics()[opcode as int]
    } else {
        "CALL"@
    }
}

/// The human-readable name of an instruction word, for traces and debuggers.
/// It has no part in execution.
pub fn opcode_to_name(opcode: i32) -> (name: &'static str)
    ensures
        name@ == mnemonic(opcode),
{
    match Instruction::decode(opcode) {
        Instruction::Nop => "NOP",
        Instruction::Lit => "LIT",
        Instruction::Dup => "DUP",
        Instruction::Drop => "DROP",
        Instruction::Swap => "SWAP",
        Instruction::Push => "PUSH",
        Instruction::Pop => "POP",
        Instruction::Loop => "LOOP",
        Instruction::Jump => "JUMP",
        Instruction::Return => "RETURN",
        Instruction::Branch(Condition::Greater) => "GT_JUMP",
        Instruction::Branch(Condition::Less) => "LT_JUMP",
        Instruction::Branch(Condition::NotEqual) => "NE_JUMP",
        Instruction::Branch(Condition::Equal) => "EQ_JUMP",
        Instruction::Fetch => "FETCH",
        Instruction::Store => "STORE",
        Instruction::Binary(Operation::Add) => "ADD",
        Instruction::Binary(Operation::Subtract) => "SUBTRACT",
        Instruction::Binary(Operation::Multiply) => "MULTIPLY",
        Instruction::DivMod => "DIVMOD",
        Instruction::Binary(Operation::And) => "AND",
        Instruction::Binary(Operation::Or) => "OR",
        Instruction::Binary(Operation::Xor) => "XOR",
        Instruction::Binary(Operation::ShiftLeft) => "SHL",
        Instruction::Binary(Operation::ShiftRight) => "SHR",
        Instruction::ZeroExit => "ZERO_EXIT",
        Instruction::Inc => "INC",
        Instruction::Dec => "DEC",
        Instruction::In => "IN",
        Instruction::Out => "OUT",
        Instruction::Wait => "WAIT",
        Instruction::Call(_) => "CALL",
    }
}

} // verus!
