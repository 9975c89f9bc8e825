//! The call stack: a last-in, first-out store of return addresses that
//! holds at most 64 of them.

use vstd::prelude::*;

use heapless::consts::U64;

verus! {

/// The most return addresses that the stack holds.
pub const STACK_CAPACITY: usize = 64;

/// The call stack, kept in a `heapless::Vec` of capacity 64.
///
/// Trusted: Verus does not look into the vector, whose capacity is a
/// number on the level of types behind a trait that Verus cannot be told
/// of. What the vector holds goes by the name [`stack_items`], and the
/// methods below say what each operation of the vector does to it.
#[verifier::external_body]
pub struct CallStack {
    items: heapless::Vec<u16, U64>,
}

/// The return addresses on the stack, the oldest first.
pub uninterp spec fn stack_items(stack: CallStack) -> Seq<u16>;

impl View for CallStack {
    type V = Seq<u16>;

    open spec fn view(&self) -> Seq<u16> {
        stack_items(*self)
    }
}

impl CallStack {
    /// `heapless::Vec::new`. Trusted: the new vector holds nothing.
    #[verifier::external_body]
    pub(crate) fn new() -> (stack: CallStack)
        ensures
            stack_items(stack) == Seq::<u16>::empty(),
    {
        CallStack { items: heapless::Vec::new() }
    }

    /// The length of the vector (`len` of its slice). Trusted: it is the
    /// number of items held, which never exceeds the capacity.
    #[verifier::external_body]
    pub(crate) fn len(&self) -> (count: usize)
        ensures
            count == stack_items(*self).len(),
            count <= STACK_CAPACITY,
    {
        self.items.len()
    }

    /// `heapless::Vec::push`. Trusted: below capacity the item is appended
    /// and the call succeeds; at capacity nothing changes and the item
    /// comes back.
    #[verifier::external_body]
    pub(crate) fn push(&mut self, item: u16) -> (pushed: Result<(), u16>)
        ensures
            pushed is Ok <==> stack_items(*old(self)).len() < STACK_CAPACITY,
            pushed is Ok ==> stack_items(*final(self)) == stack_items(*old(self)).push(item),
            pushed matches Err(back) ==> back == item && stack_items(*final(self)) == stack_items(
                *old(self),
            ),
    {
        self.items.push(item)
    }

    /// `heapless::Vec::pop`. Trusted: the newest item leaves and is
    /// returned; from an empty vector nothing is returned and nothing
    /// changes. A vector never holds more than its capacity, so that there
    /// is room for one more after an item has left.
    #[verifier::external_body]
    pub(crate) fn pop(&mut self) -> (popped: Option<u16>)
        ensures
            popped is Some <==> stack_items(*old(self)).len() > 0,
            popped is Some ==> stack_items(*final(self)).len() < STACK_CAPACITY,
            popped matches Some(item) ==> item == stack_items(*old(self)).last() && stack_items(
                *final(self),
            ) == stack_items(*old(self)).drop_last(),
            popped is None ==> stack_items(*final(self)) == stack_items(*old(self)),
    {
        self.items.pop()
    }

    /// `heapless::Vec::clear`. Trusted: afterwards the vector holds nothing.
    #[verifier::external_body]
    pub(crate) fn clear(&mut self)
        ensures
            stack_items(*final(self)) == Seq::<u16>::empty(),
    {
        self.items.clear()
    }
}

} // verus!
