use vstd::prelude::*;

use crate::error::EmulationFault;

verus! {

/// The return address pushed under every call into the guest; execution stops
/// when control reaches it.
pub const STOP_ADDR: u64 = 0x0090_0000;

/// How many arguments travel in registers (RDI, RSI, RDX, RCX, R8, R9).
pub const ARG_REGISTERS: usize = 6;

/// How many of `n` arguments travel in registers.
pub open spec fn reg_count(n: int) -> int {
    if n < ARG_REGISTERS {
        n
    } else {
        ARG_REGISTERS as int
    }
}

/// What to put into the guest before starting execution at a function.
pub struct CallSetup {
    /// Values for the argument registers, in order RDI, RSI, RDX, RCX, R8, R9;
    /// registers past the end keep what they held.
    pub registers: Vec<u64>,
    /// The new stack pointer.
    pub stack_pointer: u64,
    /// 64-bit words to store from the new stack pointer upward: the return
    /// address, then the arguments that do not fit in registers, in order.
    pub stack_words: Vec<u64>,
}

/// The words of the stack frame a call with `args` builds.
pub open spec fn frame_words(args: Seq<u64>) -> Seq<u64> {
    seq![STOP_ADDR].add(args.skip(reg_count(args.len() as int)))
}

/// Lays out a call with `args` under the stack pointer `sp` by the System V
/// x86-64 convention. Fails when the frame would reach below address zero.
pub fn plan_call(sp: u64, args: &[u64]) -> (r: Result<CallSetup, EmulationFault>)
    ensures
        r is Ok <==> 8 * frame_words(args@).len() <= sp,
        r matches Ok(c) ==> c.registers@ == args@.take(reg_count(args@.len() as int))
            && c.stack_words@ == frame_words(args@) && c.stack_pointer == sp - 8
            * frame_words(args@).len(),
        r matches Err(e) ==> e == EmulationFault::UnmappedMemory,
{
    let n = args.len();
    let in_regs: usize = if n < ARG_REGISTERS {
        n
    } else {
        ARG_REGISTERS
    };
    let words = n - in_regs + 1;
    if sp / 8 < words as u64 {
        return Err(EmulationFault::UnmappedMemory);
    }
    let mut registers: Vec<u64> = Vec::new();
    let mut i: usize = 0;
    while i < in_regs
        invariant
            in_regs <= n == args@.len(),
            0 <= i <= in_regs,
            registers@ == args@.take(i as int),
        decreases in_regs - i,
    {
        registers.push(args[i]);
        assert(args@.take(i + 1) == args@.take(i as int).push(args@[i as int]));
        i = i + 1;
    }
    let mut stack_words: Vec<u64> = Vec::new();
    stack_words.push(STOP_ADDR);
    let mut j: usize = in_regs;
    while j < n
        invariant
            in_regs <= j <= n == args@.len(),
            stack_words@ == seq![STOP_ADDR].add(args@.subrange(in_regs as int, j as int)),
        decreases n - j,
    {
        stack_words.push(args[j]);
        assert(args@.subrange(in_regs as int, j + 1) == args@.subrange(in_regs as int, j as int).push(
            args@[j as int],
        ));
        assert(seq![STOP_ADDR].add(args@.subrange(in_regs as int, j + 1)) == seq![STOP_ADDR].add(
            args@.subrange(in_regs as int, j as int),
        ).push(args@[j as int]));
        j = j + 1;
    }
    assert(args@.subrange(in_regs as int, n as int) == args@.skip(in_regs as int));
    Ok(CallSetup { registers, stack_pointer: sp - 8 * words as u64, stack_words })
}

/// The `arity` arguments a callee finds: the argument registers first, then the
/// stack words above the return address.
pub open spec fn gathered_args(registers: Seq<u64>, stack: Seq<u64>, arity: int) -> Seq<u64> {
    registers.take(reg_count(arity)).add(stack.take(arity - reg_count(arity)))
}

/// Reads a callee's `arity` arguments from the registers (RDI first) and from
/// the stack words above its return address. Fails when fewer words are at
/// hand than the arity needs.
pub fn gather_args(arity: usize, registers: &[u64], stack: &[u64]) -> (r: Result<
    Vec<u64>,
    EmulationFault,
>)
    ensures
        r is Ok <==> (registers@.len() >= reg_count(arity as int) && stack@.len() >= arity
            - reg_count(arity as int)),
        r matches Ok(v) ==> v@ == gathered_args(registers@, stack@, arity as int),
        r matches Err(e) ==> e == EmulationFault::InvalidHookArity,
{
    let in_regs: usize = if arity < ARG_REGISTERS {
        arity
    } else {
        ARG_REGISTERS
    };
    let on_stack = arity - in_regs;
    if registers.len() < in_regs || stack.len() < on_stack {
        return Err(EmulationFault::InvalidHookArity);
    }
    let mut v: Vec<u64> = Vec::new();
    let mut i: usize = 0;
    while i < in_regs
        invariant
            in_regs <= registers@.len(),
            0 <= i <= in_regs,
            v@ == registers@.take(i as int),
        decreases in_regs - i,
    {
        v.push(registers[i]);
        assert(registers@.take(i + 1) == registers@.take(i as int).push(registers@[i as int]));
        i = i + 1;
    }
    let mut j: usize = 0;
    while j < on_stack
        invariant
            on_stack <= stack@.len(),
            0 <= j <= on_stack,
            v@ == registers@.take(in_regs as int).add(stack@.take(j as int)),
        decreases on_stack - j,
    {
        v.push(stack[j]);
        assert(stack@.take(j + 1) == stack@.take(j as int).push(stack@[j as int]));
        assert(registers@.take(in_regs as int).add(stack@.take(j + 1)) == registers@.take(
            in_regs as int,
        ).add(stack@.take(j as int)).push(stack@[j as int]));
        j = j + 1;
    }
    Ok(v)
}

/// A callee reads back exactly the arguments a call laid out: the registers
/// the call filled and the frame above its return address give the arguments
/// in order.
pub proof fn lemma_call_args_round_trip(args: Seq<u64>)
    ensures
        gathered_args(
            args.take(reg_count(args.len() as int)),
            frame_words(args).skip(1),
            args.len() as int,
        ) == args,
{
    let k = reg_count(args.len() as int);
    assert(frame_words(args).skip(1) =~= args.skip(k));
    assert(args.take(k).take(k) =~= args.take(k));
    assert(args.skip(k).take(args.len() - k) =~= args.skip(k));
    assert(args.take(k).add(args.skip(k)) =~= args);
}

} // verus!
