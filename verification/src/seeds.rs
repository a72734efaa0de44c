//! Seed tuples: the ordered byte strings from which addresses are derived.

use vstd::prelude::*;

verus! {

/// Most components that a seed tuple may hold once the bump seed has been
/// appended to it.
pub const MAX_SEEDS: usize = 16;

/// Most bytes that one component of a seed tuple may hold.
pub const MAX_SEED_LEN: usize = 32;

/// Whether a seed tuple can be derived from: it leaves room for the bump
/// seed, and none of its components is longer than the runtime accepts.
pub open spec fn seeds_within_limits(seeds: Seq<Seq<u8>>) -> bool {
    &&& seeds.len() < MAX_SEEDS
    &&& forall|i: int| 0 <= i < seeds.len() ==> (#[trigger] seeds[i]).len() <= MAX_SEED_LEN
}

/// An ordered sequence of byte strings, the sole input besides the module
/// identity to address derivation. Its view is the sequence of its
/// components, each as a sequence of bytes.
#[derive(Clone, Debug, PartialEq, Eq)]
pub struct SeedTuple {
    pub parts: Vec<Vec<u8>>,
}

impl View for SeedTuple {
    type V = Seq<Seq<u8>>;

    open spec fn view(&self) -> Seq<Seq<u8>> {
        Seq::new(self.parts@.len(), |i: int| self.parts@[i]@)
    }
}

/// Copies a byte string into a vector of its own.
pub fn copy_bytes(bytes: &[u8]) -> (copy: Vec<u8>)
    ensures
        copy@ == bytes@,
{
    let mut copy: Vec<u8> = Vec::new();
    let mut i: usize = 0;
    while i < bytes.len()
        invariant
            i <= bytes.len(),
            copy@ == bytes@.subrange(0, i as int),
        decreases bytes.len() - i,
    {
        copy.push(bytes[i]);
        i = i + 1;
    }
    copy
}

impl SeedTuple {
    /// The tuple without components.
    pub fn new() -> (seeds: SeedTuple)
        ensures
            seeds@ == Seq::<Seq<u8>>::empty(),
    {
        SeedTuple { parts: Vec::new() }
    }

    /// The tuple whose only component is `tag`.
    pub fn single(tag: &[u8]) -> (seeds: SeedTuple)
        ensures
            seeds@ == seq![tag@],
    {
        let mut seeds = SeedTuple::new();
        seeds.push(tag);
        seeds
    }

    /// Appends `part` as the last component.
    pub fn push(&mut self, part: &[u8])
        ensures
            final(self)@ == old(self)@.push(part@),
    {
        let copy = copy_bytes(part);
        self.parts.push(copy);
    }

    /// Number of components.
    pub fn len(&self) -> (n: usize)
        ensures
            n == self@.len(),
    {
        self.parts.len()
    }

    /// Whether the tuple can be derived from (`seeds_within_limits`).
    pub fn within_limits(&self) -> (ok: bool)
        ensures
            ok == seeds_within_limits(self@),
    {
        if self.parts.len() >= MAX_SEEDS {
            return false;
        }
        let mut i: usize = 0;
        while i < self.parts.len()
            invariant
                i <= self.parts.len(),
                self.parts.len() < MAX_SEEDS,
                forall|k: int| 0 <= k < i ==> (#[trigger] self@[k]).len() <= MAX_SEED_LEN,
            decreases self.parts.len() - i,
        {
            if self.parts[i].len() > MAX_SEED_LEN {
                assert(self@[i as int].len() > MAX_SEED_LEN);
                return false;
            }
            i = i + 1;
        }
        true
    }

    /// The tuple followed by the bump seed as a component of one byte: the
    /// seeds that sign for the address derived with that bump.
    pub fn with_bump(&self, bump: u8) -> (signing: SeedTuple)
        ensures
            signing@ == self@.push(seq![bump]),
    {
        let mut parts: Vec<Vec<u8>> = Vec::new();
        let mut i: usize = 0;
        while i < self.parts.len()
            invariant
                i <= self.parts.len(),
                parts@.len() == i,
                forall|k: int| 0 <= k < i ==> (#[trigger] parts@[k])@ == self.parts@[k]@,
            decreases self.parts.len() - i,
        {
            let copy = copy_bytes(self.parts[i].as_slice());
            parts.push(copy);
            i = i + 1;
        }
        let mut last: Vec<u8> = Vec::new();
        last.push(bump);
        parts.push(last);
        SeedTuple { parts }
    }
}

} // verus!
