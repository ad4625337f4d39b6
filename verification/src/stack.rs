//! The return-address stack.

use vstd::prelude::*;

verus! {

/// The number of return addresses the stack can hold.
pub const STACK_SIZE: usize = 16;

/// A fixed-depth stack of return addresses: sixteen slots and a pointer to
/// the first free one.
///
/// Its view is the sequence of the addresses that are on it, the oldest first:
/// the slots below the pointer. `slots` gives the content of all sixteen.
pub struct Stack {
    stack: [u16; STACK_SIZE],
    sp: u8,
}

impl View for Stack {
    type V = Seq<u16>;

    closed spec fn view(&self) -> Seq<u16> {
        self.stack@.take(self.sp as int)
    }
}

impl Stack {
    /// The content of the sixteen slots, those above the pointer included.
    pub closed spec fn slots(&self) -> Seq<u16> {
        self.stack@
    }

    /// The stack pointer never passes the last slot. This holds of every
    /// stack that a program can hold.
    #[verifier::type_invariant]
    pub closed spec fn inv(self) -> bool {
        self.sp <= STACK_SIZE
    }

    /// A stack has sixteen slots, holds no more addresses than that, and the
    /// addresses on it are its first slots.
    pub proof fn lemma_shape(self)
        requires
            self.inv(),
        ensures
            self.slots().len() == STACK_SIZE,
            self@.len() <= STACK_SIZE,
            self@ == self.slots().take(self@.len() as int),
    {
    }

    /// An empty stack with every slot zero.
    pub fn new() -> (r: Self)
        ensures
            r@ == Seq::<u16>::empty(),
            r.slots() == Seq::new(STACK_SIZE as nat, |k: int| 0u16),
    {
        let r = Self { stack: [0; STACK_SIZE], sp: 0 };
        assert(r@ =~= Seq::<u16>::empty());
        assert(r.slots() =~= Seq::new(STACK_SIZE as nat, |k: int| 0u16));
        r
    }

    /// The number of addresses on the stack, which never exceeds its capacity.
    pub fn depth(&self) -> (d: usize)
        ensures
            d == self@.len(),
            d <= STACK_SIZE,
    {
        proof {
            use_type_invariant(self);
        }
        self.sp as usize
    }

    /// Puts `value` on top of the stack: it is written to the slot at the
    /// pointer, and no other slot changes. The stack must not be full.
    pub fn push(&mut self, value: u16)
        requires
            old(self)@.len() < STACK_SIZE,
        ensures
            final(self)@ == old(self)@.push(value),
            final(self).slots() == old(self).slots().update(old(self)@.len() as int, value),
    {
        proof {
            use_type_invariant(&*self);
        }
        self.stack[self.sp as usize] = value;
        self.sp += 1;
        assert(self@ =~= old(self)@.push(value));
    }

    /// Takes the top address off the stack. No slot changes: the address
    /// stays where it was, above the pointer. The stack must not be empty.
    pub fn pop(&mut self) -> (value: u16)
        requires
            old(self)@.len() > 0,
        ensures
            value == old(self)@.last(),
            final(self)@ == old(self)@.drop_last(),
            final(self).slots() == old(self).slots(),
    {
        proof {
            use_type_invariant(&*self);
        }
        self.sp -= 1;
        assert(self@ =~= old(self)@.drop_last());
        self.stack[self.sp as usize]
    }
}

} // verus!
