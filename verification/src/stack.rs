use vstd::prelude::*;

verus! {

/// Number of return addresses the call stack can hold.
pub const STACK_SIZE: usize = 16;

/// Fixed-depth stack of 16-bit return addresses used for subroutine
/// call and return.
pub struct Stack {
    values: Vec<u16>,
}

impl View for Stack {
    type V = Seq<u16>;

    /// The addresses currently on the stack, bottom first.
    closed spec fn view(&self) -> Seq<u16> {
        self.values@
    }
}

impl Stack {
    /// An empty stack.
    pub fn new() -> (r: Stack)
        ensures
            r@ == Seq::<u16>::empty(),
    {
        Stack { values: Vec::new() }
    }

    /// How many addresses are on the stack.
    pub fn len(&self) -> (r: usize)
        ensures
            r == self@.len(),
    {
        self.values.len()
    }

    /// Places `value` on top of the stack. The caller guards the
    /// capacity bound; a well-formed program never exceeds it.
    pub fn push(&mut self, value: u16)
        requires
            old(self)@.len() < STACK_SIZE,
        ensures
            final(self)@ == old(self)@.push(value),
    {
        self.values.push(value);
    }

    /// Removes and returns the address on top of the stack.
    pub fn pop(&mut self) -> (r: u16)
        requires
            old(self)@.len() > 0,
        ensures
            final(self)@ == old(self)@.drop_last(),
            r == old(self)@.last(),
    {
        let r = self.values.pop().unwrap();
        r
    }
}

} // verus!
