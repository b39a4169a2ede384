//! Protocol identifiers: the well-known atoms resolved once per connection,
//! the cache of custom format names, and the decoding of atom lists.

use vstd::prelude::*;
use crate::error::ClipboardError;

verus! {

/// The atoms a connection resolves once, at construction.
///
/// The display server gives distinct names distinct atoms; the `NONE` atom
/// is `0` and is never the value of a resolved name.
#[derive(Clone, Copy, Debug, PartialEq, Eq, Structural)]
pub struct Atoms {
    pub clipboard: u32,
    pub clipboard_manager: u32,
    pub property: u32,
    pub save_targets: u32,
    pub targets: u32,
    pub atom: u32,
    pub incr: u32,
    pub timestamp: u32,
    pub multiple: u32,
    pub utf8_string: u32,
    pub utf8_mime_0: u32,
    pub utf8_mime_1: u32,
    pub string: u32,
    pub text: u32,
    pub text_mime_unknown: u32,
    pub rtf: u32,
    pub rtf_1: u32,
    pub html: u32,
    pub png_mime: u32,
    pub file_list: u32,
    pub gnome_copy_files: u32,
    pub nautilus_file_list: u32,
}

/// The `NONE` atom: no property, no type.
pub const NONE: u32 = 0;

impl Atoms {
    /// The content and protocol atoms, which must be told apart.
    pub open spec fn key_atoms(&self) -> Seq<u32> {
        seq![
            self.targets, self.save_targets, self.timestamp, self.multiple, self.atom, self.incr,
            self.utf8_string, self.rtf, self.html, self.png_mime, self.file_list,
            self.gnome_copy_files, self.nautilus_file_list,
        ]
    }

    /// The atoms were resolved from distinct names: the key atoms differ
    /// from each other and from `NONE`.
    pub open spec fn wf(&self) -> bool {
        &&& forall|i: int, j: int|
            0 <= i < j < self.key_atoms().len() ==> self.key_atoms()[i] != self.key_atoms()[j]
        &&& forall|i: int| 0 <= i < self.key_atoms().len() ==> self.key_atoms()[i] != NONE
    }

    /// Protocol atoms that describe the conversation rather than content.
    pub open spec fn is_protocol_atom(&self, a: u32) -> bool {
        a == self.timestamp || a == self.multiple || a == self.targets || a == self.save_targets
    }

    /// The protocol atoms, which listings of the offered formats leave out.
    pub fn ignored_formats(&self) -> (r: Vec<u32>)
        ensures
            r@ == seq![self.timestamp, self.multiple, self.targets, self.save_targets],
            forall|a: u32| r@.contains(a) <==> self.is_protocol_atom(a),
    {
        let r = vec![self.timestamp, self.multiple, self.targets, self.save_targets];
        proof {
            assert forall|a: u32| r@.contains(a) <==> self.is_protocol_atom(a) by {
                if self.is_protocol_atom(a) {
                    if a == self.timestamp {
                        assert(r@[0] == a);
                    } else if a == self.multiple {
                        assert(r@[1] == a);
                    } else if a == self.targets {
                        assert(r@[2] == a);
                    } else {
                        assert(r@[3] == a);
                    }
                }
            }
        }
        r
    }
}

/// Byte order of 32-bit values in property data.
#[derive(Clone, Copy, Debug, PartialEq, Eq, Structural)]
pub enum ByteOrder {
    Little,
    Big,
}

/// The 32-bit value held by bytes `4i .. 4i + 4` of `b`.
pub open spec fn word_at(b: Seq<u8>, i: int, order: ByteOrder) -> u32 {
    let b0 = b[4 * i] as int;
    let b1 = b[4 * i + 1] as int;
    let b2 = b[4 * i + 2] as int;
    let b3 = b[4 * i + 3] as int;
    match order {
        ByteOrder::Little => (b0 + b1 * 0x100 + b2 * 0x10000 + b3 * 0x1000000) as u32,
        ByteOrder::Big => (b3 + b2 * 0x100 + b1 * 0x10000 + b0 * 0x1000000) as u32,
    }
}

/// The atoms that a list of `b.len() / 4` 32-bit values encodes.
pub open spec fn atom_list_of(b: Seq<u8>, order: ByteOrder) -> Seq<u32> {
    Seq::new((b.len() / 4) as nat, |i: int| word_at(b, i, order))
}

/// Decodes property data of format 32 into the atoms it lists.
///
/// Data whose length is not a multiple of four is malformed.
pub fn parse_atom_list(data: &[u8], order: ByteOrder) -> (r: Result<Vec<u32>, ClipboardError>)
    ensures
        data@.len() % 4 == 0 ==> r == Ok::<Vec<u32>, ClipboardError>(r->Ok_0) && r->Ok_0@
            == atom_list_of(data@, order),
        data@.len() % 4 != 0 ==> r == Err::<Vec<u32>, ClipboardError>(ClipboardError::Protocol),
{
    let len = data.len();
    if len % 4 != 0 {
        return Err(ClipboardError::Protocol);
    }
    let mut out: Vec<u32> = Vec::with_capacity(len / 4);
    let mut i: usize = 0;
    while i < len / 4
        invariant
            len == data@.len(),
            len % 4 == 0,
            i <= len / 4,
            out@ =~= atom_list_of(data@, order).subrange(0, i as int),
        decreases len / 4 - i,
    {
        let b0 = data[4 * i] as u32;
        let b1 = data[4 * i + 1] as u32;
        let b2 = data[4 * i + 2] as u32;
        let b3 = data[4 * i + 3] as u32;
        let w = match order {
            ByteOrder::Little => b0 + b1 * 0x100 + b2 * 0x10000 + b3 * 0x1000000,
            ByteOrder::Big => b3 + b2 * 0x100 + b1 * 0x10000 + b0 * 0x1000000,
        };
        assert(w == word_at(data@, i as int, order));
        out.push(w);
        i = i + 1;
    }
    Ok(out)
}

/// Custom format names resolved to atoms, kept for the lifetime of a
/// connection so that each name is resolved once.
pub struct AtomCache {
    names: Vec<String>,
    atoms: Vec<u32>,
    resolved: Ghost<Map<Seq<char>, u32>>,
}

impl View for AtomCache {
    type V = Map<Seq<char>, u32>;

    closed spec fn view(&self) -> Map<Seq<char>, u32> {
        self.resolved@
    }
}

impl AtomCache {
    /// The cache's tables agree with the names it has resolved.
    pub closed spec fn wf(&self) -> bool {
        &&& self.names@.len() == self.atoms@.len()
        &&& forall|i: int|
            0 <= i < self.names@.len() ==> self.resolved@.contains_key(#[trigger] self.names@[i]@)
                && self.resolved@[self.names@[i]@] == self.atoms@[i]
        &&& forall|n: Seq<char>|
            #[trigger] self.resolved@.contains_key(n) ==> exists|i: int|
                0 <= i < self.names@.len() && #[trigger] self.names@[i]@ == n
    }

    /// An empty cache.
    pub fn new() -> (r: AtomCache)
        ensures
            r.wf(),
            r@ == Map::<Seq<char>, u32>::empty(),
    {
        AtomCache { names: Vec::new(), atoms: Vec::new(), resolved: Ghost(Map::empty()) }
    }

    /// The atom `name` was resolved to, if it has been.
    pub fn lookup(&self, name: &String) -> (r: Option<u32>)
        requires
            self.wf(),
        ensures
            r == (if self@.contains_key(name@) {
                Some(self@[name@])
            } else {
                None
            }),
    {
        let mut i: usize = 0;
        while i < self.names.len()
            invariant
                self.wf(),
                i <= self.names@.len(),
                forall|j: int| 0 <= j < i ==> self.names@[j]@ != name@,
            decreases self.names@.len() - i,
        {
            if self.names[i] == *name {
                return Some(self.atoms[i]);
            }
            i = i + 1;
        }
        None
    }

    /// Records that `name` resolves to `atom`. A name resolved before keeps
    /// its first atom: resolution is idempotent.
    pub fn insert(&mut self, name: String, atom: u32)
        requires
            old(self).wf(),
        ensures
            final(self).wf(),
            old(self)@.contains_key(name@) ==> final(self)@ == old(self)@,
            !old(self)@.contains_key(name@) ==> final(self)@ == old(self)@.insert(name@, atom),
    {
        if self.lookup(&name).is_some() {
            return;
        }
        let ghost n = name@;
        self.names.push(name);
        self.atoms.push(atom);
        self.resolved = Ghost(self.resolved@.insert(n, atom));
        proof {
            let len = self.names@.len();
            assert(self.names@[len - 1]@ == n);
            assert forall|m: Seq<char>| #[trigger] self.resolved@.contains_key(m) implies exists|i: int|
                0 <= i < self.names@.len() && #[trigger] self.names@[i]@ == m by {
                if m != n {
                    assert(old(self).resolved@.contains_key(m));
                    let i = choose|i: int| 0 <= i < old(self).names@.len() && #[trigger] old(self).names@[i]@ == m;
                    assert(self.names@[i] == old(self).names@[i]);
                } else {
                    assert(self.names@[len - 1]@ == m);
                }
            }
        }
    }
}

} // verus!
