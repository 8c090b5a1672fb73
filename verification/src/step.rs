//! The execution of one instruction.
//!
//! The machine performs no input or output of its own. Where an instruction
//! reads, `step` says what it waits for and is called again with it; where
//! an instruction writes, `step` hands the bytes to its caller. Everything
//! else happens on the machine alone.

use crate::alu::{binary, compute_binary, compute_unary, divides, is_binary, is_unary, unary};
use crate::dump::dump_text;
use crate::machine::{Machine, State};
use crate::opcode;
use crate::text::{ascii, decimal_text, line_value, parse_line, put_decimal, put_text};
use vstd::prelude::*;

verus! {

/// What the caller hands to a step.
#[derive(Debug, Clone, PartialEq, Eq)]
pub enum Input {
    /// Nothing was read.
    Nothing,
    /// One raw byte, read from the input stream.
    Byte(u8),
    /// One line of text, read from the input stream, with its line ending if
    /// it had one; empty at the end of the stream.
    Line(String),
}

/// Why a step failed.
#[derive(Debug, Clone, Copy, PartialEq, Eq)]
pub enum Fault {
    /// The line read is not a decimal number from 0 to 255. This counts as a
    /// failure of the input stream.
    InvalidData,
    /// A division or a remainder by zero.
    DivisionByZero,
}

/// What a step asks of its caller.
#[derive(Debug, Clone, PartialEq, Eq)]
pub enum Outcome {
    /// Step again.
    Continue,
    /// Write these bytes to the output stream, then step again.
    Output(Vec<u8>),
    /// The machine has stopped, for good.
    Halt,
    /// Read one raw byte from the input stream, then step again with it.
    AwaitByte,
    /// Write these bytes to the output stream as a prompt and flush it, read
    /// one line from the input stream, then step again with it.
    AwaitLine(Vec<u8>),
}

/// An `Outcome` as contracts speak of it: the same five cases, with the
/// bytes as a sequence.
pub enum Effect {
    /// Step again.
    Continue,
    /// Write these bytes, then step again.
    Output(Seq<u8>),
    /// The machine has stopped.
    Halt,
    /// Read one raw byte, then step again with it.
    AwaitByte,
    /// Write these bytes as a prompt, read one line, then step again with it.
    AwaitLine(Seq<u8>),
}

impl View for Outcome {
    type V = Effect;

    open spec fn view(&self) -> Effect {
        match *self {
            Outcome::Continue => Effect::Continue,
            Outcome::Output(bytes) => Effect::Output(bytes@),
            Outcome::Halt => Effect::Halt,
            Outcome::AwaitByte => Effect::AwaitByte,
            Outcome::AwaitLine(prompt) => Effect::AwaitLine(prompt@),
        }
    }
}

/// The result of a step with the bytes of its outcome as a sequence.
pub open spec fn result_view(result: Result<Outcome, Fault>) -> Result<Effect, Fault> {
    match result {
        Ok(outcome) => Ok(outcome@),
        Err(fault) => Err(fault),
    }
}

/// The instruction went through: the program counter moves on.
pub open spec fn proceed(s: State) -> (State, Result<Effect, Fault>) {
    (s.advance(), Ok(Effect::Continue))
}

/// The instruction went through and wrote `bytes`: the program counter moves
/// on.
pub open spec fn emit(s: State, bytes: Seq<u8>) -> (State, Result<Effect, Fault>) {
    (s.advance(), Ok(Effect::Output(bytes)))
}

/// One step of the machine: the state it leaves and what it returns, from
/// the state it finds and what it is handed.
///
/// The instruction is the byte at the program counter, read anew at every
/// step. `b` is the value on top of the stack, the one popped first; `a` is
/// the one below it.
pub open spec fn step_spec(s: State, input: Input) -> (State, Result<Effect, Fault>) {
    let op = s.opcode();
    let b = s.top();
    let a = s.pop().top();
    if opcode::digit(op) is Some {
        proceed(s.push(opcode::digit(op)->0))
    } else if is_binary(op) {
        if divides(op) && b == 0 {
            (s, Err(Fault::DivisionByZero))
        } else {
            proceed(s.pop().pop().push(binary(op, a, b)))
        }
    } else if is_unary(op) {
        proceed(s.pop().push(unary(op, b)))
    } else if op == opcode::SWAP {
        proceed(s.pop().pop().push(b).push(a))
    } else if op == opcode::DUP {
        proceed(s.pop().push(b).push(b))
    } else if op == opcode::DROP {
        proceed(s.pop())
    } else if op == opcode::GOTO {
        (s.pop().jump(b), Ok(Effect::Continue))
    } else if op == opcode::JUMP {
        if a != 0 {
            (s.pop().pop().jump(b), Ok(Effect::Continue))
        } else {
            proceed(s.pop().pop())
        }
    } else if op == opcode::LOAD {
        proceed(s.pop().push(s.mem[b as int]))
    } else if op == opcode::STORE {
        proceed(s.pop().pop().store(b, a))
    } else if op == opcode::WRITE_DECIMAL {
        emit(s.pop(), decimal_text(b as nat) + ascii("\n"@))
    } else if op == opcode::WRITE_BYTE {
        emit(s.pop(), seq![b])
    } else if op == opcode::DUMP {
        emit(s, dump_text(s) + ascii("\n"@))
    } else if op == opcode::READ_BYTE {
        match input {
            Input::Byte(val) => proceed(s.push(val)),
            _ => (s, Ok(Effect::AwaitByte)),
        }
    } else if op == opcode::READ_LINE {
        match input {
            Input::Line(line) => match line_value(line@) {
                Some(val) => proceed(s.push(val)),
                None => (s, Err(Fault::InvalidData)),
            },
            _ => (s, Ok(Effect::AwaitLine(ascii("> "@)))),
        }
    } else {
        (s, Ok(Effect::Halt))
    }
}

impl Machine {
    /// Executes the instruction at the program counter.
    ///
    /// An instruction that reads does nothing until it is handed what it
    /// reads: the step returns `AwaitByte` or `AwaitLine` and leaves the
    /// machine as it was. An input that the instruction does not read is
    /// ignored. A step that fails, or halts, leaves the machine as it was
    /// too.
    pub fn step(&mut self, input: &Input) -> (result: Result<Outcome, Fault>)
        ensures
            (final(self)@, result_view(result)) == step_spec(old(self)@, *input),
    {
        let op = self.read(self.pc());
        match op {
            0x30..=0x39 => {
                self.push(op - 0x30);
            },
            0x61..=0x66 => {
                self.push(op - 0x61 + 10);
            },
            opcode::COMBINE
            | opcode::ADD
            | opcode::SUB
            | opcode::MUL
            | opcode::DIV
            | opcode::REM
            | opcode::POW
            | opcode::EQUAL
            | opcode::LESS
            | opcode::GREATER
            | opcode::OR
            | opcode::AND
            | opcode::XOR => {
                let b = self.read(self.stack().wrapping_add(1));
                if (op == opcode::DIV || op == opcode::REM) && b == 0 {
                    return Err(Fault::DivisionByZero);
                }
                self.pop();
                let a = self.pop();
                self.push(compute_binary(op, a, b));
            },
            opcode::NOT | opcode::INVERT => {
                let a = self.pop();
                self.push(compute_unary(op, a));
            },
            opcode::SWAP => {
                let b = self.pop();
                let a = self.pop();
                self.push(b);
                self.push(a);
            },
            opcode::DUP => {
                let a = self.pop();
                self.push(a);
                self.push(a);
            },
            opcode::DROP => {
                self.pop();
            },
            opcode::GOTO => {
                let addr = self.pop();
                self.jump(addr);
                return Ok(Outcome::Continue);
            },
            opcode::JUMP => {
                let addr = self.pop();
                let cond = self.pop();
                if cond != 0 {
                    self.jump(addr);
                    return Ok(Outcome::Continue);
                }
            },
            opcode::LOAD => {
                let addr = self.pop();
                let val = self.read(addr);
                self.push(val);
            },
            opcode::STORE => {
                let addr = self.pop();
                let val = self.pop();
                self.write(addr, val);
            },
            opcode::WRITE_DECIMAL => {
                let a = self.pop();
                let mut bytes: Vec<u8> = Vec::new();
                put_decimal(&mut bytes, a);
                proof {
                    reveal_strlit("\n");
                }
                put_text(&mut bytes, "\n");
                self.advance();
                return Ok(Outcome::Output(bytes));
            },
            opcode::WRITE_BYTE => {
                let a = self.pop();
                let mut bytes: Vec<u8> = Vec::new();
                bytes.push(a);
                self.advance();
                return Ok(Outcome::Output(bytes));
            },
            opcode::DUMP => {
                let mut bytes = self.dump();
                proof {
                    reveal_strlit("\n");
                }
                put_text(&mut bytes, "\n");
                self.advance();
                return Ok(Outcome::Output(bytes));
            },
            opcode::READ_BYTE => {
                match input {
                    Input::Byte(val) => {
                        self.push(*val);
                    },
                    _ => {
                        return Ok(Outcome::AwaitByte);
                    },
                }
            },
            opcode::READ_LINE => {
                match input {
                    Input::Line(line) => {
                        match parse_line(line.as_str()) {
                            Some(val) => {
                                self.push(val);
                            },
                            None => {
                                return Err(Fault::InvalidData);
                            },
                        }
                    },
                    _ => {
                        let mut prompt: Vec<u8> = Vec::new();
                        proof {
                            reveal_strlit("> ");
                        }
                        put_text(&mut prompt, "> ");
                        return Ok(Outcome::AwaitLine(prompt));
                    },
                }
            },
            _ => {
                return Ok(Outcome::Halt);
            },
        }
        self.advance();
        Ok(Outcome::Continue)
    }
}

} // verus!
