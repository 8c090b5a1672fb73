//! The machine's registers and memory, and the primitives that move them.
//!
//! Memory is one array of 256 cells. Code, data and the operand stack all
//! live in it and may overlap; every address is a byte, so no access is ever
//! out of range. The stack grows downward from address 255 and wraps.

use vstd::prelude::*;

verus! {

/// The byte that an integer denotes modulo 256.
pub open spec fn wrap(i: int) -> u8 {
    (i % 256) as u8
}

/// The mathematical state of a machine.
pub struct State {
    /// The 256 cells, by address.
    pub mem: Seq<u8>,
    /// The address of the next instruction.
    pub pc: u8,
    /// The address that the next push writes to; the top of the stack is the
    /// cell above it.
    pub sp: u8,
}

impl State {
    /// Memory has exactly one cell per address.
    pub open spec fn wf(self) -> bool {
        self.mem.len() == 256
    }

    /// The state of a fresh machine that holds `program` from address 0
    /// upward and zeros elsewhere.
    pub open spec fn load(program: Seq<u8>) -> State {
        State {
            mem: Seq::new(
                256,
                |i: int|
                    if i < program.len() {
                        program[i]
                    } else {
                        0u8
                    },
            ),
            pc: 0,
            sp: 0xff,
        }
    }

    /// The byte at the program counter.
    pub open spec fn opcode(self) -> u8 {
        self.mem[self.pc as int]
    }

    /// The state after `val` is written at the stack pointer, which then
    /// moves one cell down, from 0 to 255 at the bottom of memory.
    pub open spec fn push(self, val: u8) -> State {
        State { mem: self.mem.update(self.sp as int, val), sp: wrap(self.sp - 1), ..self }
    }

    /// The byte that a pop returns: the cell one above the stack pointer.
    pub open spec fn top(self) -> u8 {
        self.mem[wrap(self.sp + 1) as int]
    }

    /// The state after a pop: the stack pointer moves one cell up, from 255
    /// to 0 at the top of memory. Memory is untouched.
    pub open spec fn pop(self) -> State {
        State { sp: wrap(self.sp + 1), ..self }
    }

    /// The state after `val` is written at `addr`.
    pub open spec fn store(self, addr: u8, val: u8) -> State {
        State { mem: self.mem.update(addr as int, val), ..self }
    }

    /// The state after a jump to `addr`.
    pub open spec fn jump(self, addr: u8) -> State {
        State { pc: addr, ..self }
    }

    /// The state after the program counter moves to the next address, from
    /// 255 to 0 at the top of memory.
    pub open spec fn advance(self) -> State {
        State { pc: wrap(self.pc + 1), ..self }
    }
}

/// A machine: 256 bytes of unified memory, a program counter and a stack
/// pointer.
#[derive(Debug, Clone)]
pub struct Machine {
    mem: [u8; 256],
    pc: u8,
    stack: u8,
}

impl View for Machine {
    type V = State;

    closed spec fn view(&self) -> State {
        State { mem: self.mem@, pc: self.pc, sp: self.stack }
    }
}

impl Default for Machine {
    /// A machine with zeroed memory, the program counter at 0 and an empty
    /// stack at the top of memory.
    fn default() -> (m: Machine)
        ensures
            m@ == State::load(Seq::empty()),
    {
        let m = Machine { mem: [0u8; 256], pc: 0, stack: 0xff };
        assert(m@.mem =~= State::load(Seq::empty()).mem);
        m
    }
}

impl Machine {
    /// Memory always has all 256 cells: every machine denotes a well-formed
    /// state, whatever was done to it.
    pub proof fn lemma_wf(&self)
        ensures
            self@.wf(),
    {
    }

    /// A fresh machine whose memory holds the bytes of `program` from address
    /// 0 upward, verbatim, and zeros beyond them.
    pub fn from(program: &[u8]) -> (m: Machine)
        requires
            program@.len() <= 256,
        ensures
            m@ == State::load(program@),
    {
        let mut m = Machine { mem: [0u8; 256], pc: 0, stack: 0xff };
        let mut i: usize = 0;
        while i < program.len()
            invariant
                i <= program@.len() <= 256,
                m.pc == 0,
                m.stack == 0xff,
                forall|k: int| 0 <= k < i ==> m.mem@[k] == program@[k],
                forall|k: int| i <= k < 256 ==> m.mem@[k] == 0,
            decreases program@.len() - i,
        {
            m.mem[i] = program[i];
            i += 1;
        }
        assert(m@.mem =~= State::load(program@).mem);
        m
    }

    /// The program counter.
    pub fn pc(&self) -> (pc: u8)
        ensures
            pc == self@.pc,
    {
        self.pc
    }

    /// The stack pointer.
    pub fn stack(&self) -> (sp: u8)
        ensures
            sp == self@.sp,
    {
        self.stack
    }

    /// The byte at `addr`.
    pub fn read(&self, addr: u8) -> (val: u8)
        ensures
            val == self@.mem[addr as int],
    {
        self.mem[addr as usize]
    }

    /// Sets the byte at `addr` to `val`.
    pub fn write(&mut self, addr: u8, val: u8)
        ensures
            final(self)@ == old(self)@.store(addr, val),
    {
        self.mem[addr as usize] = val;
    }

    /// Sets the program counter to `addr`.
    pub fn jump(&mut self, addr: u8)
        ensures
            final(self)@ == old(self)@.jump(addr),
    {
        self.pc = addr;
    }

    /// Moves the program counter to the next address.
    pub fn advance(&mut self)
        ensures
            final(self)@ == old(self)@.advance(),
    {
        self.pc = self.pc.wrapping_add(1);
    }

    /// Writes `val` at the stack pointer and moves the pointer down by one.
    pub fn push(&mut self, val: u8)
        ensures
            final(self)@ == old(self)@.push(val),
    {
        self.mem[self.stack as usize] = val;
        self.stack = self.stack.wrapping_sub(1);
    }

    /// Moves the stack pointer up by one and returns the byte it then names.
    pub fn pop(&mut self) -> (val: u8)
        ensures
            val == old(self)@.top(),
            final(self)@ == old(self)@.pop(),
    {
        self.stack = self.stack.wrapping_add(1);
        self.mem[self.stack as usize]
    }
}

} // verus!
