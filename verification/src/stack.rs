use vstd::prelude::*;

use crate::error::Chip8Error;

verus! {

/// Number of return-address slots in the call stack.
pub const STACK_SIZE: usize = 16;

/// The call stack: a fixed sequence of 16 16-bit return addresses plus a
/// stack pointer in `0..=16`.  Its view is the live contents, oldest entry
/// first.
pub struct Stack {
    /// The fixed backing storage (16 slots).
    pub data: Vec<u16>,
    /// The stack pointer: number of live entries.
    pub sp: usize,
}

impl View for Stack {
    type V = Seq<u16>;

    open spec fn view(&self) -> Seq<u16> {
        self.data@.subrange(0, self.sp as int)
    }
}

impl Stack {
    pub open spec fn wf(&self) -> bool {
        self.data@.len() == STACK_SIZE && self.sp <= STACK_SIZE
    }

    /// A fresh stack is empty.
    pub fn new() -> (s: Stack)
        ensures
            s.wf(),
            s@ == Seq::<u16>::empty(),
    {
        let mut data: Vec<u16> = Vec::new();
        let mut k: usize = 0;
        while k < STACK_SIZE
            invariant
                k <= STACK_SIZE,
                data@.len() == k,
            decreases STACK_SIZE - k,
        {
            data.push(0u16);
            k = k + 1;
        }
        let s = Stack { data, sp: 0 };
        proof {
            assert(s@ =~= Seq::<u16>::empty());
        }
        s
    }

    /// Pushes a return address, advancing the stack pointer; a seventeenth
    /// consecutive push fails with a stack-overflow error and leaves the
    /// stack unchanged.
    pub fn push(&mut self, value: u16) -> (r: Result<(), Chip8Error>)
        requires
            old(self).wf(),
        ensures
            final(self).wf(),
            (match r {
                Ok(()) => old(self)@.len() < STACK_SIZE
                    && final(self)@ == old(self)@.push(value),
                Err(e) => old(self)@.len() == STACK_SIZE && e == Chip8Error::StackOverflow
                    && final(self)@ == old(self)@,
            }),
    {
        if self.sp >= STACK_SIZE {
            Err(Chip8Error::StackOverflow)
        } else {
            self.data.set(self.sp, value);
            self.sp = self.sp + 1;
            proof {
                assert(self@ =~= old(self)@.push(value));
            }
            Ok(())
        }
    }

    /// Pops the most recently pushed return address, retreating the stack
    /// pointer; a pop on an empty stack fails with a stack-underflow error
    /// and leaves the stack unchanged.
    pub fn pop(&mut self) -> (r: Result<u16, Chip8Error>)
        requires
            old(self).wf(),
        ensures
            final(self).wf(),
            (match r {
                Ok(value) => old(self)@.len() > 0
                    && value == old(self)@.last()
                    && final(self)@ == old(self)@.drop_last(),
                Err(e) => old(self)@.len() == 0 && e == Chip8Error::StackUnderflow
                    && final(self)@ == old(self)@,
            }),
    {
        if self.sp == 0 {
            Err(Chip8Error::StackUnderflow)
        } else {
            self.sp = self.sp - 1;
            let value = self.data[self.sp];
            proof {
                assert(self@ =~= old(self)@.drop_last());
            }
            Ok(value)
        }
    }
}

/// The stack contents after pushing the addresses of `xs` in order onto a
/// stack whose contents are `s`.
pub open spec fn pushes_of(s: Seq<u16>, xs: Seq<u16>) -> Seq<u16>
    decreases xs.len(),
{
    if xs.len() == 0 {
        s
    } else {
        pushes_of(s.push(xs[0]), xs.subrange(1, xs.len() as int))
    }
}

/// The values returned by `k` consecutive pops from a stack whose contents
/// are `s`, in pop order.
pub open spec fn pops_of(s: Seq<u16>, k: nat) -> Seq<u16>
    recommends
        k <= s.len(),
    decreases k,
{
    if k == 0 {
        Seq::empty()
    } else {
        seq![s.last()] + pops_of(s.drop_last(), (k - 1) as nat)
    }
}

/// Pushing a sequence of addresses leaves exactly those addresses on top, in
/// push order.
pub proof fn lemma_pushes_of(s: Seq<u16>, xs: Seq<u16>)
    ensures
        pushes_of(s, xs) == s + xs,
    decreases xs.len(),
{
    if xs.len() == 0 {
        assert(pushes_of(s, xs) =~= s + xs);
    } else {
        let rest = xs.subrange(1, xs.len() as int);
        lemma_pushes_of(s.push(xs[0]), rest);
        assert(s.push(xs[0]) + rest =~= s + xs);
    }
}

/// LIFO order: pushing up to 16 addresses onto the empty stack and then
/// popping the same number returns the addresses in reverse push order.
pub proof fn lemma_stack_lifo(xs: Seq<u16>)
    requires
        xs.len() <= STACK_SIZE,
    ensures
        pops_of(pushes_of(Seq::empty(), xs), xs.len()) == xs.reverse(),
{
    lemma_pushes_of(Seq::empty(), xs);
    assert(pushes_of(Seq::empty(), xs) =~= xs);
    lemma_pops_reverse(xs);
}

/// Popping a whole stack returns its contents reversed.
proof fn lemma_pops_reverse(s: Seq<u16>)
    ensures
        pops_of(s, s.len()) == s.reverse(),
    decreases s.len(),
{
    if s.len() == 0 {
        assert(pops_of(s, 0) =~= s.reverse());
    } else {
        lemma_pops_reverse(s.drop_last());
        assert(seq![s.last()] + s.drop_last().reverse() =~= s.reverse());
    }
}

} // verus!
