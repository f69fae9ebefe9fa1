//! The short list of slots that an inventory update names.

use crate::inventory::SlotIndex;
use smallvec::SmallVec;
use vstd::prelude::*;

verus! {

/// A list of inventory slots, kept in a `smallvec::SmallVec` that holds up to
/// two of them without allocating.
#[verifier::external_body]
pub struct SlotList {
    slots: SmallVec<[SlotIndex; 2]>,
}

/// The slots that a list holds, in order.
pub uninterp spec fn slot_list_items(list: SlotList) -> Seq<SlotIndex>;

impl View for SlotList {
    type V = Seq<SlotIndex>;

    open spec fn view(&self) -> Seq<SlotIndex> {
        slot_list_items(*self)
    }
}

impl SlotList {
    /// `SmallVec::new`: a vector that holds nothing.
    #[verifier::external_body]
    fn new() -> (list: SlotList)
        ensures
            slot_list_items(list) == Seq::<SlotIndex>::empty(),
    {
        SlotList { slots: SmallVec::new() }
    }

    /// `SmallVec::push`: appends `idx` behind the items that the vector holds.
    #[verifier::external_body]
    fn push(&mut self, idx: SlotIndex)
        ensures
            slot_list_items(*final(self)) == slot_list_items(*old(self)).push(idx),
    {
        self.slots.push(idx)
    }

    /// `SmallVec::as_slice`: the items that the vector holds, in order; they are
    /// copied into a `Vec`.
    #[verifier::external_body]
    fn copy_out(&self) -> (items: Vec<SlotIndex>)
        ensures
            items@ == slot_list_items(*self),
    {
        self.slots.as_slice().to_vec()
    }

    /// The slots of the list, in order.
    pub fn to_vec(&self) -> (items: Vec<SlotIndex>)
        ensures
            items@ == self@,
    {
        self.copy_out()
    }

    /// The list that holds `idx` and nothing else.
    pub fn single(idx: SlotIndex) -> (list: SlotList)
        ensures
            list@ == seq![idx],
    {
        let mut list = SlotList::new();
        list.push(idx);
        list
    }
}

} // verus!
