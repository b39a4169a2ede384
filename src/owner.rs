//! The selection owner: holds the current payload and decides how to answer
//! peers' requests for it.
//!
//! The owner's connection runs a responder loop; for each event it calls
//! into a [`SelectionOwner`] held behind a reader-writer lock, and performs
//! the reply it is given.

use vstd::prelude::*;
use crate::atoms::{Atoms, NONE};
use crate::error::ClipboardError;
use crate::payload::{ClipboardData, payload_view};

verus! {

/// How to answer a peer's conversion request.
pub enum OwnerReply {
    /// Store these atoms, as 32-bit values of type `ATOM`, in the requested
    /// property.
    Targets(Vec<u32>),
    /// Store the bytes of the payload entry at this index, as 8-bit values
    /// of the requested type, in the requested property.
    Entry(usize),
    /// Store nothing; the request is refused.
    Refuse,
}

impl OwnerReply {
    /// The property named in the notification that ends the reply: the
    /// requested one, or `NONE` for a refusal.
    pub fn notify_property(&self, requested: u32) -> (r: u32)
        ensures
            r == (if *self is Refuse {
                NONE
            } else {
                requested
            }),
    {
        match self {
            OwnerReply::Refuse => NONE,
            _ => requested,
        }
    }
}

/// The `TARGETS` answer for a payload: `TARGETS`, `SAVE_TARGETS`, then the
/// format of each entry.
pub open spec fn targets_of(p: Seq<(u32, Seq<u8>)>, atoms: Atoms) -> Seq<u32> {
    seq![atoms.targets, atoms.save_targets] + Seq::new(p.len(), |i: int| p[i].0)
}

/// Whether the payload has an entry in `format`.
pub open spec fn offers(p: Seq<(u32, Seq<u8>)>, format: u32) -> bool {
    exists|i: int| 0 <= i < p.len() && (#[trigger] p[i]).0 == format
}

/// Whether `i` is the first entry of the payload in `format`.
pub open spec fn first_entry(p: Seq<(u32, Seq<u8>)>, format: u32, i: int) -> bool {
    &&& 0 <= i < p.len()
    &&& p[i].0 == format
    &&& forall|j: int| 0 <= j < i ==> (#[trigger] p[j]).0 != format
}

/// The content this process offers while it owns the clipboard selection.
pub struct SelectionOwner {
    payload: Vec<ClipboardData>,
}

impl View for SelectionOwner {
    type V = Seq<(u32, Seq<u8>)>;

    closed spec fn view(&self) -> Seq<(u32, Seq<u8>)> {
        payload_view(self.payload@)
    }
}

impl SelectionOwner {
    /// An owner that offers nothing.
    pub fn new() -> (r: SelectionOwner)
        ensures
            r@ == Seq::<(u32, Seq<u8>)>::empty(),
    {
        let r = SelectionOwner { payload: Vec::new() };
        assert(r@ =~= Seq::<(u32, Seq<u8>)>::empty());
        r
    }

    /// Replaces the whole payload in one step; nothing of the old one stays.
    pub fn replace(&mut self, payload: Vec<ClipboardData>)
        ensures
            final(self)@ == payload_view(payload@),
    {
        self.payload = payload;
    }

    /// Reacts to losing the selection `selection`: when it is the clipboard,
    /// the payload is no longer authoritative and is dropped.
    pub fn on_selection_clear(&mut self, selection: u32, atoms: &Atoms)
        ensures
            selection == atoms.clipboard ==> final(self)@ == Seq::<(u32, Seq<u8>)>::empty(),
            selection != atoms.clipboard ==> final(self)@ == old(self)@,
    {
        if selection == atoms.clipboard {
            self.payload = Vec::new();
            assert(self@ =~= Seq::<(u32, Seq<u8>)>::empty());
        }
    }

    /// The number of entries.
    pub fn len(&self) -> (r: usize)
        ensures
            r == self@.len(),
    {
        self.payload.len()
    }

    /// The bytes of entry `i`.
    pub fn entry_data(&self, i: usize) -> (r: &[u8])
        requires
            i < self@.len(),
        ensures
            r@ == self@[i as int].1,
    {
        self.payload[i].data.as_slice()
    }

    /// The answer to a request for `target`: the list of offered formats
    /// for `TARGETS`, the first entry in the format otherwise, or a refusal
    /// when there is none.
    pub fn respond(&self, target: u32, atoms: &Atoms) -> (r: OwnerReply)
        ensures
            target == atoms.targets ==> (r matches OwnerReply::Targets(l) && l@ == targets_of(
                self@,
                *atoms,
            )),
            target != atoms.targets ==> (r is Refuse <==> !offers(self@, target)),
            target != atoms.targets ==> (r matches OwnerReply::Entry(i) ==> first_entry(
                self@,
                target,
                i as int,
            )),
            target != atoms.targets ==> !(r is Targets),
    {
        if target == atoms.targets {
            let mut list: Vec<u32> = vec![atoms.targets, atoms.save_targets];
            let mut i: usize = 0;
            while i < self.payload.len()
                invariant
                    i <= self@.len(),
                    list@ =~= seq![atoms.targets, atoms.save_targets] + Seq::new(
                        i as nat,
                        |k: int| self@[k].0,
                    ),
                decreases self@.len() - i,
            {
                list.push(self.payload[i].format);
                i = i + 1;
            }
            return OwnerReply::Targets(list);
        }
        let mut i: usize = 0;
        while i < self.payload.len()
            invariant
                i <= self@.len(),
                target != atoms.targets,
                forall|j: int| 0 <= j < i ==> (#[trigger] self@[j]).0 != target,
            decreases self@.len() - i,
        {
            if self.payload[i].format == target {
                assert(self@[i as int].0 == target);
                return OwnerReply::Entry(i);
            }
            i = i + 1;
        }
        OwnerReply::Refuse
    }
}

/// The outcome of a claim of the selection, from the owner read back after
/// it: the claim held only if that owner is this process's window.
pub fn check_ownership(owner: Option<u32>, window: u32) -> (r: Result<(), ClipboardError>)
    ensures
        r is Ok <==> owner == Some(window),
        r is Err ==> r == Err::<(), ClipboardError>(ClipboardError::Ownership),
{
    match owner {
        Some(w) => if w == window {
            Ok(())
        } else {
            Err(ClipboardError::Ownership)
        },
        None => Err(ClipboardError::Ownership),
    }
}

} // verus!
