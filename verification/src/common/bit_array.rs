//! A fixed-length sequence of bits.
use vstd::prelude::*;

verus! {

/// A sequence of bits of fixed length, all white (`false`) when created.
/// Its view is the sequence of its bits.
#[derive(Debug)]
pub struct BitArray {
    bits: Vec<bool>,
}

impl View for BitArray {
    type V = Seq<bool>;

    closed spec fn view(&self) -> Seq<bool> {
        self.bits@
    }
}

impl Clone for BitArray {
    fn clone(&self) -> (res: Self)
        ensures
            res@ == self@,
    {
        let bits = self.bits.clone();
        assert(bits@ =~= self.bits@);
        BitArray { bits }
    }
}

impl BitArray {
    /// An array of `size` bits, none of them set.
    pub fn with_size(size: usize) -> (res: Self)
        ensures
            res@ == Seq::new(size as nat, |i: int| false),
    {
        let bits = vec![false; size];
        assert(bits@ =~= Seq::new(size as nat, |i: int| false));
        BitArray { bits }
    }

    /// The number of bits.
    pub fn get_size(&self) -> (n: usize)
        ensures
            n == self@.len(),
    {
        self.bits.len()
    }

    /// The bit at position `i`: `true` is black.
    pub fn get(&self, i: usize) -> (b: bool)
        requires
            i < self@.len(),
        ensures
            b == self@[i as int],
    {
        self.bits[i]
    }

    /// Makes the bit at position `i` black and leaves the others as they are.
    pub fn set(&mut self, i: usize)
        requires
            i < old(self)@.len(),
        ensures
            final(self)@ == old(self)@.update(i as int, true),
    {
        self.bits[i] = true;
    }
}

} // verus!
