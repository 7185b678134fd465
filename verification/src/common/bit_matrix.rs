//! A two-dimensional grid of bits addressed by column `x` and row `y`.
use vstd::prelude::*;
use crate::common::bit_array::BitArray;
use crate::common::row_major::lemma_row_major_index;
use crate::exceptions::Exceptions;

verus! {

/// The mathematical value of a bit matrix: its dimensions and its bits in
/// row-major order.
pub struct BitGrid {
    pub width: nat,
    pub height: nat,
    pub bits: Seq<bool>,
}

impl BitGrid {
    /// Both dimensions are positive and there is one bit per position.
    pub open spec fn wf(self) -> bool {
        &&& self.width > 0
        &&& self.height > 0
        &&& self.bits.len() == self.width * self.height
    }

    /// Whether `(x, y)` addresses a position of the grid.
    pub open spec fn contains(self, x: int, y: int) -> bool {
        0 <= x < self.width && 0 <= y < self.height
    }

    /// The bit in column `x` of row `y`.
    pub open spec fn get(self, x: int, y: int) -> bool {
        self.bits[y * self.width + x]
    }

    /// Row `y` as a sequence of `width` bits.
    pub open spec fn row(self, y: int) -> Seq<bool> {
        Seq::new(self.width, |x: int| self.get(x, y))
    }

    /// The grid of the given dimensions with no bit set.
    pub open spec fn blank(width: nat, height: nat) -> BitGrid {
        BitGrid { width, height, bits: Seq::new(width * height, |i: int| false) }
    }

    /// This grid with the bit at `(x, y)` set.
    pub open spec fn with_bit(self, x: int, y: int) -> BitGrid {
        BitGrid { bits: self.bits.update(y * self.width + x, true), ..self }
    }
}

/// A grid of bits with positive dimensions, all white when created.
#[derive(Debug)]
pub struct BitMatrix {
    width: usize,
    height: usize,
    bits: Vec<bool>,
}

impl View for BitMatrix {
    type V = BitGrid;

    closed spec fn view(&self) -> BitGrid {
        BitGrid { width: self.width as nat, height: self.height as nat, bits: self.bits@ }
    }
}

impl Clone for BitMatrix {
    fn clone(&self) -> (res: Self)
        ensures
            res@ == self@,
    {
        let bits = self.bits.clone();
        assert(bits@ =~= self.bits@);
        BitMatrix { width: self.width, height: self.height, bits }
    }
}

impl BitMatrix {
    /// The invariant of every matrix that this module hands out.
    pub open spec fn wf(&self) -> bool {
        self@.wf()
    }

    /// A blank matrix of the given dimensions. Fails when a dimension is zero
    /// or when the number of positions exceeds what a `usize` can count.
    pub fn new(width: usize, height: usize) -> (res: Result<BitMatrix, Exceptions>)
        ensures
            res is Ok <==> width > 0 && height > 0 && width * height <= usize::MAX,
            res matches Ok(m) ==> m.wf() && m@ == BitGrid::blank(width as nat, height as nat),
            res matches Err(e) ==> e == Exceptions::IllegalArgument,
    {
        if width == 0 || height == 0 {
            return Err(Exceptions::IllegalArgument);
        }
        match width.checked_mul(height) {
            Some(n) => {
                let bits = vec![false; n];
                assert(bits@ =~= Seq::new((width * height) as nat, |i: int| false));
                Ok(BitMatrix { width, height, bits })
            },
            None => Err(Exceptions::IllegalArgument),
        }
    }

    /// The number of columns.
    pub fn get_width(&self) -> (w: usize)
        ensures
            w == self@.width,
    {
        self.width
    }

    /// The number of rows.
    pub fn get_height(&self) -> (h: usize)
        ensures
            h == self@.height,
    {
        self.height
    }

    /// The bit at column `x` of row `y`: `true` is black.
    pub fn get(&self, x: usize, y: usize) -> (b: bool)
        requires
            self.wf(),
            self@.contains(x as int, y as int),
        ensures
            b == self@.get(x as int, y as int),
    {
        proof {
            lemma_row_major_index(self@.width, self@.height, x as int, y as int);
            assert(self.bits.len() == self.width * self.height);
        }
        self.bits[y * self.width + x]
    }

    /// Makes the bit at column `x` of row `y` black.
    pub fn set(&mut self, x: usize, y: usize)
        requires
            old(self).wf(),
            old(self)@.contains(x as int, y as int),
        ensures
            final(self).wf(),
            final(self)@ == old(self)@.with_bit(x as int, y as int),
    {
        proof {
            lemma_row_major_index(self@.width, self@.height, x as int, y as int);
            assert(self.bits.len() == self.width * self.height);
        }
        let index: usize = y * self.width + x;
        self.bits[index] = true;
    }

    /// Row `y` as a bit array of its own; the matrix is left as it is.
    pub fn get_row(&self, y: usize) -> (row: BitArray)
        requires
            self.wf(),
            y < self@.height,
        ensures
            row@ == self@.row(y as int),
    {
        let mut row = BitArray::with_size(self.width);
        let mut x: usize = 0;
        while x < self.width
            invariant
                self.wf(),
                y < self@.height,
                x <= self.width,
                self.width == self@.width,
                row@.len() == self.width,
                forall|k: int| 0 <= k < x ==> row@[k] == self@.get(k, y as int),
                forall|k: int| x <= k < self.width ==> row@[k] == false,
            decreases self.width - x,
        {
            if self.get(x, y) {
                row.set(x);
            }
            x += 1;
        }
        assert(row@ =~= self@.row(y as int));
        row
    }

    /// All bits in row-major order, one `bool` for each position.
    pub fn to_row_major(&self) -> (flat: Vec<bool>)
        requires
            self.wf(),
        ensures
            flat@ == self@.bits,
    {
        let mut flat: Vec<bool> = Vec::new();
        let mut y: usize = 0;
        while y < self.height
            invariant
                self.wf(),
                y <= self.height,
                self.height == self@.height,
                self.width == self@.width,
                flat@.len() == y * self.width,
                forall|i: int| 0 <= i < flat@.len() ==> flat@[i] == self@.bits[i],
            decreases self.height - y,
        {
            let mut x: usize = 0;
            while x < self.width
                invariant
                    self.wf(),
                    y < self.height,
                    x <= self.width,
                    self.height == self@.height,
                    self.width == self@.width,
                    flat@.len() == y * self.width + x,
                    forall|i: int| 0 <= i < flat@.len() ==> flat@[i] == self@.bits[i],
                decreases self.width - x,
            {
                proof {
                    lemma_row_major_index(self@.width, self@.height, x as int, y as int);
                }
                flat.push(self.get(x, y));
                x += 1;
            }
            y += 1;
            assert(flat@.len() == y * self.width) by (nonlinear_arith)
                requires
                    flat@.len() == (y - 1) * self.width + self.width,
            ;
        }
        assert(flat@.len() == self@.width * self@.height) by (nonlinear_arith)
            requires
                flat@.len() == y * self.width,
                y == self.height,
                self.height == self@.height,
                self.width == self@.width,
        ;
        assert(flat@ =~= self@.bits);
        flat
    }
}

} // verus!
