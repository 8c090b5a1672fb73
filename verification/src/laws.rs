//! What holds of every machine, proved from the definition of a step.

use crate::alu::divides;
use crate::machine::{wrap, State};
use crate::opcode;
use crate::step::{step_spec, Effect, Fault, Input};
use vstd::arithmetic::power::pow;
use vstd::prelude::*;

verus! {

/// The state after the bytes of `vals` are pushed, first to last.
pub open spec fn push_all(s: State, vals: Seq<u8>) -> State
    decreases vals.len(),
{
    if vals.len() == 0 {
        s
    } else {
        push_all(s, vals.drop_last()).push(vals.last())
    }
}

/// The state after `n` pops.
pub open spec fn pop_n(s: State, n: nat) -> State
    decreases n,
{
    if n == 0 {
        s
    } else {
        pop_n(s, (n - 1) as nat).pop()
    }
}

/// The bytes that `n` pops return, in the order in which they come.
pub open spec fn popped(s: State, n: nat) -> Seq<u8> {
    Seq::new(n, |k: int| pop_n(s, k as nat).top())
}

/// Swap exchanges the two values on top of the stack. When `a` and then `b`
/// have been pushed and the instruction that runs next is `@`, the two pops
/// that follow return `a` and then `b`, and leave the stack where it was
/// before the pushes.
pub proof fn lemma_swap(s: State, a: u8, b: u8, input: Input)
    requires
        s.wf(),
        s.push(a).push(b).opcode() == opcode::SWAP,
    ensures
        ({
            let (t, r) = step_spec(s.push(a).push(b), input);
            &&& r == Ok::<Effect, Fault>(Effect::Continue)
            &&& t.pc == wrap(s.pc + 1)
            &&& t.top() == a
            &&& t.pop().top() == b
            &&& t.pop().pop().sp == s.sp
        }),
{
    let below = wrap(s.sp - 1);
    let free = wrap(s.sp - 2);
    assert(wrap(below - 1) == free && wrap(free + 1) == below && wrap(below + 1) == s.sp);
    assert(below != s.sp);
    let m = s.push(a).push(b);
    assert(m.sp == free && m.top() == b && m.pop().top() == a);
    let t = m.pop().pop().push(b).push(a);
    assert(t.sp == free && t.top() == a && t.pop().top() == b);
}

/// Duplicate leaves two copies of the value on top of the stack. When `a`
/// has been pushed and the instruction that runs next is `(`, the two pops
/// that follow both return `a`, and leave the stack where it was before the
/// push.
pub proof fn lemma_duplicate(s: State, a: u8, input: Input)
    requires
        s.wf(),
        s.push(a).opcode() == opcode::DUP,
    ensures
        ({
            let (t, r) = step_spec(s.push(a), input);
            &&& r == Ok::<Effect, Fault>(Effect::Continue)
            &&& t.pc == wrap(s.pc + 1)
            &&& t.top() == a
            &&& t.pop().top() == a
            &&& t.pop().pop().sp == s.sp
        }),
{
    let below = wrap(s.sp - 1);
    let free = wrap(s.sp - 2);
    assert(wrap(below - 1) == free && wrap(free + 1) == below && wrap(below + 1) == s.sp);
    assert(below != s.sp);
    let m = s.push(a);
    assert(m.sp == below && m.top() == a);
    let t = m.pop().push(a).push(a);
    assert(t.sp == free && t.top() == a && t.pop().top() == a);
}

/// Addition, subtraction, multiplication and power are taken modulo 256.
/// When `a` and then `b` have been pushed and the instruction that runs next
/// is one of `+ - * ^`, it leaves on top of the stack, in place of the two,
/// the sum, the difference, the product or the power of `a` and `b`, reduced
/// modulo 256.
pub proof fn lemma_arithmetic_wraps(s: State, a: u8, b: u8, input: Input)
    requires
        s.wf(),
        ({
            let op = s.push(a).push(b).opcode();
            op == opcode::ADD || op == opcode::SUB || op == opcode::MUL || op == opcode::POW
        }),
    ensures
        ({
            let op = s.push(a).push(b).opcode();
            let (t, r) = step_spec(s.push(a).push(b), input);
            &&& r == Ok::<Effect, Fault>(Effect::Continue)
            &&& t.pc == wrap(s.pc + 1)
            &&& t.pop().sp == s.sp
            &&& op == opcode::ADD ==> t.top() == (a + b) % 256
            &&& op == opcode::SUB ==> t.top() == (a - b) % 256
            &&& op == opcode::MUL ==> t.top() == (a * b) % 256
            &&& op == opcode::POW ==> t.top() == pow(a as int, b as nat) % 256
        }),
{
}

/// Division and remainder by zero fail, always in the same way. When the
/// value on top of the stack is 0 and the instruction that runs next is `/`
/// or `%`, the step fails with `DivisionByZero` and leaves the machine as it
/// was, whatever it is handed.
pub proof fn lemma_division_by_zero(s: State, input: Input)
    requires
        s.wf(),
        divides(s.opcode()),
        s.top() == 0,
    ensures
        step_spec(s, input) == (s, Err::<Effect, Fault>(Fault::DivisionByZero)),
{
}

/// Division and remainder by anything else are the ordinary ones. When `a`
/// and then a `b` other than 0 have been pushed and the instruction that runs
/// next is `/` or `%`, it leaves on top of the stack, in place of the two,
/// the quotient or the remainder of `a` by `b`.
pub proof fn lemma_division(s: State, a: u8, b: u8, input: Input)
    requires
        s.wf(),
        b != 0,
        divides(s.push(a).push(b).opcode()),
    ensures
        ({
            let op = s.push(a).push(b).opcode();
            let (t, r) = step_spec(s.push(a).push(b), input);
            &&& r == Ok::<Effect, Fault>(Effect::Continue)
            &&& t.pc == wrap(s.pc + 1)
            &&& t.pop().sp == s.sp
            &&& op == opcode::DIV ==> t.top() == a as int / b as int
            &&& op == opcode::REM ==> t.top() == a as int % b as int
        }),
{
}

/// A jump that is taken sets the program counter to the address popped and
/// does not move it on; a conditional jump that is not taken moves it on by
/// one. `g` is always taken; `j` is taken when the value below the address is
/// not 0.
pub proof fn lemma_jump(s: State, input: Input)
    requires
        s.wf(),
        s.opcode() == opcode::GOTO || s.opcode() == opcode::JUMP,
    ensures
        ({
            let (t, r) = step_spec(s, input);
            let taken = s.opcode() == opcode::GOTO || s.pop().top() != 0;
            &&& r == Ok::<Effect, Fault>(Effect::Continue)
            &&& t.mem == s.mem
            &&& taken ==> t.pc == s.top()
            &&& !taken ==> t.pc == wrap(s.pc + 1)
            &&& s.opcode() == opcode::GOTO ==> t.sp == wrap(s.sp + 1)
            &&& s.opcode() == opcode::JUMP ==> t.sp == wrap(s.sp + 2)
        }),
{
}

/// A store reaches code as it reaches data. After `s` has popped an address
/// and a value, the cell at that address holds the value and no other cell
/// has changed; if the address is that of the next instruction, the value is
/// the instruction that runs next.
pub proof fn lemma_store(s: State, input: Input)
    requires
        s.wf(),
        s.opcode() == opcode::STORE,
    ensures
        ({
            let (t, r) = step_spec(s, input);
            let addr = s.top();
            let val = s.pop().top();
            &&& r == Ok::<Effect, Fault>(Effect::Continue)
            &&& t.pc == wrap(s.pc + 1)
            &&& t.sp == wrap(s.sp + 2)
            &&& t.mem == s.mem.update(addr as int, val)
            &&& addr == t.pc ==> t.opcode() == val
        }),
{
}

/// A load reads code as it reads data. After `l` has popped an address, the
/// value on top of the stack is the byte at that address; if the address is
/// that of the `l` itself, the value is the byte `l`.
pub proof fn lemma_load(s: State, input: Input)
    requires
        s.wf(),
        s.opcode() == opcode::LOAD,
    ensures
        ({
            let (t, r) = step_spec(s, input);
            let addr = s.top();
            &&& r == Ok::<Effect, Fault>(Effect::Continue)
            &&& t.pc == wrap(s.pc + 1)
            &&& t.sp == s.sp
            &&& t.top() == s.mem[addr as int]
            &&& addr == s.pc ==> t.top() == opcode::LOAD
        }),
{
}

/// Reducing modulo 256 before an addition changes nothing after it.
proof fn lemma_wrap_add(x: int, y: int)
    ensures
        wrap(wrap(x) + y) == wrap(x + y),
{
}

/// Two addresses less than 256 cells apart are different.
proof fn lemma_wrap_apart(x: int, j: int, k: int)
    requires
        0 <= j < k < 256,
    ensures
        wrap(x - j) != wrap(x - k),
{
}

/// Where a row of pushes leaves the stack pointer, and what it leaves in
/// memory: the byte pushed `k`-th lies `k` cells below where the stack
/// pointer was.
proof fn lemma_push_all(s: State, vals: Seq<u8>)
    requires
        s.wf(),
        vals.len() <= 256,
    ensures
        push_all(s, vals).wf(),
        push_all(s, vals).pc == s.pc,
        push_all(s, vals).sp == wrap(s.sp - vals.len()),
        forall|k: int|
            0 <= k < vals.len() ==> push_all(s, vals).mem[wrap(s.sp - k) as int]
                == #[trigger] vals[k],
    decreases vals.len(),
{
    if vals.len() > 0 {
        let init = vals.drop_last();
        let last = init.len() as int;
        lemma_push_all(s, init);
        let t = push_all(s, init);
        lemma_wrap_add(s.sp - last, -1);
        assert(push_all(s, vals) == t.push(vals.last()));
        assert forall|k: int| 0 <= k < vals.len() implies push_all(s, vals).mem[wrap(
            s.sp - k,
        ) as int] == #[trigger] vals[k] by {
            if k < last {
                assert(init[k] == vals[k]);
                lemma_wrap_apart(s.sp as int, k, last);
            }
        }
    }
}

/// Where a row of pops leaves the machine.
proof fn lemma_pop_n(s: State, n: nat)
    ensures
        pop_n(s, n).mem == s.mem,
        pop_n(s, n).pc == s.pc,
        pop_n(s, n).sp == wrap(s.sp + n),
    decreases n,
{
    if n > 0 {
        lemma_pop_n(s, (n - 1) as nat);
        lemma_wrap_add(s.sp + n - 1, 1);
    }
}

/// The stack gives back what it was given, last first, and wraps round the
/// ends of memory. After up to 256 bytes have been pushed, as many pops
/// return them in reverse order and leave the stack pointer where it was
/// before the pushes, wherever that was.
pub proof fn lemma_push_pop(s: State, vals: Seq<u8>)
    requires
        s.wf(),
        vals.len() <= 256,
    ensures
        popped(push_all(s, vals), vals.len()) == vals.reverse(),
        pop_n(push_all(s, vals), vals.len()).sp == s.sp,
{
    let t = push_all(s, vals);
    let n = vals.len();
    lemma_push_all(s, vals);
    lemma_pop_n(t, n);
    lemma_wrap_add(s.sp - n, n as int);
    assert forall|k: int| 0 <= k < n implies popped(t, n)[k] == vals.reverse()[k] by {
        let j = n - 1 - k;
        let u = pop_n(t, k as nat);
        lemma_pop_n(t, k as nat);
        lemma_wrap_add(s.sp - n, k);
        lemma_wrap_add(s.sp - n + k, 1);
        assert(wrap(u.sp + 1) == wrap(s.sp - j));
        assert(u.top() == t.mem[wrap(s.sp - j) as int]);
        assert(vals.reverse()[k] == vals[j]);
    }
    assert(popped(t, n) =~= vals.reverse());
}

/// A machine that has halted stays halted. A step that returns `Halt` leaves
/// the machine as it was, and every later step returns `Halt` again,
/// whatever it is handed.
pub proof fn lemma_halt_is_final(s: State, input: Input, later: Input)
    requires
        step_spec(s, input).1 == Ok::<Effect, Fault>(Effect::Halt),
    ensures
        step_spec(s, later) == (s, Ok::<Effect, Fault>(Effect::Halt)),
{
}

/// A step that fails, or that waits for input, leaves the machine as it was.
pub proof fn lemma_no_progress(s: State, input: Input)
    requires
        ({
            let r = step_spec(s, input).1;
            r is Err || r == Ok::<Effect, Fault>(Effect::AwaitByte) || (r matches Ok(
                Effect::AwaitLine(_),
            ))
        }),
    ensures
        step_spec(s, input).0 == s,
{
}

/// Only the two instructions that read look at what a step is handed.
pub proof fn lemma_input_is_ignored(s: State, input: Input, other: Input)
    requires
        s.opcode() != opcode::READ_BYTE,
        s.opcode() != opcode::READ_LINE,
    ensures
        step_spec(s, input) == step_spec(s, other),
{
}

} // verus!
