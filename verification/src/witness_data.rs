//! A snapshot of one binarization pass: the grayscale image and the bit
//! matrix that came of it, kept together for tools that need both.
use vstd::prelude::*;
use crate::common::bit_matrix::{BitGrid, BitMatrix};
use crate::common::row_major::lemma_row_major_index;
use crate::luminance_source::valid_image;

verus! {

/// The mathematical value of a witness.
pub struct Witness {
    pub width: nat,
    pub height: nat,
    /// The samples of the grayscale image in row-major order.
    pub image: Seq<u8>,
    pub binarized_image: BitGrid,
}

impl Witness {
    /// There is one sample for each pixel, and the bit grid is valid.
    pub open spec fn wf(self) -> bool {
        &&& valid_image(self.image, self.width, self.height)
        &&& self.binarized_image.wf()
    }

    /// The sample of the pixel in column `x` of row `y`.
    pub open spec fn pixel(self, x: int, y: int) -> u8 {
        self.image[y * self.width + x]
    }
}

/// The grayscale image of a pass and its binarized form. A value is never
/// changed after it was made, and keeps no tie to the binarizer that the
/// matrix came from.
#[derive(Debug)]
pub struct WitnessData {
    width: usize,
    height: usize,
    image: Vec<u8>,
    binarized_image: BitMatrix,
}

/// What a witness is exported as: the dimensions, the samples of the image
/// and one `bool` for each pixel of the binarized image (`true` is black),
/// both in row-major order.
#[derive(Debug)]
pub struct WitnessRecord {
    pub width: usize,
    pub height: usize,
    pub image: Vec<u8>,
    pub binarized_image: Vec<bool>,
}

impl View for WitnessData {
    type V = Witness;

    closed spec fn view(&self) -> Witness {
        Witness {
            width: self.width as nat,
            height: self.height as nat,
            image: self.image@,
            binarized_image: self.binarized_image@,
        }
    }
}

impl Clone for WitnessData {
    fn clone(&self) -> (res: Self)
        ensures
            res@ == self@,
    {
        let image = self.image.clone();
        assert(image@ =~= self.image@);
        WitnessData {
            width: self.width,
            height: self.height,
            image,
            binarized_image: self.binarized_image.clone(),
        }
    }
}

impl WitnessData {
    /// The invariant of a witness.
    pub open spec fn wf(&self) -> bool {
        self@.wf()
    }

    /// The witness of an image of the given dimensions. The image must have
    /// one sample for each pixel.
    pub fn new(width: usize, height: usize, image: Vec<u8>, binarized_image: BitMatrix) -> (witness:
        Self)
        requires
            image@.len() == width * height,
            binarized_image.wf(),
        ensures
            witness.wf(),
            witness@ == (Witness {
                width: width as nat,
                height: height as nat,
                image: image@,
                binarized_image: binarized_image@,
            }),
    {
        WitnessData { width, height, image, binarized_image }
    }

    /// The width of the image in pixels.
    pub fn width(&self) -> (width: usize)
        ensures
            width == self@.width,
    {
        self.width
    }

    /// The height of the image in pixels.
    pub fn height(&self) -> (height: usize)
        ensures
            height == self@.height,
    {
        self.height
    }

    /// The samples of the grayscale image.
    pub fn image(&self) -> (image: &[u8])
        ensures
            image@ == self@.image,
    {
        self.image.as_slice()
    }

    /// The binarized image.
    pub fn binarized_image(&self) -> (matrix: &BitMatrix)
        ensures
            matrix@ == self@.binarized_image,
    {
        &self.binarized_image
    }

    /// The sample of the pixel in column `x` of row `y`.
    pub fn get_pixel(&self, x: usize, y: usize) -> (luminance: u8)
        requires
            self.wf(),
            x < self@.width,
            y < self@.height,
        ensures
            luminance == self@.pixel(x as int, y as int),
    {
        proof {
            lemma_row_major_index(self@.width, self@.height, x as int, y as int);
            assert(self.image.len() == self.width * self.height);
        }
        self.image[y * self.width + x]
    }

    /// Whether the pixel in column `x` of row `y` of the binarized image is
    /// black. The position is one of the bit matrix.
    pub fn get_binarized_pixel(&self, x: usize, y: usize) -> (black: bool)
        requires
            self.wf(),
            self@.binarized_image.contains(x as int, y as int),
        ensures
            black == self@.binarized_image.get(x as int, y as int),
    {
        self.binarized_image.get(x, y)
    }

    /// The witness as plain values, ready to be written out.
    pub fn to_record(&self) -> (record: WitnessRecord)
        requires
            self.wf(),
        ensures
            record.width == self@.width,
            record.height == self@.height,
            record.image@ == self@.image,
            record.binarized_image@ == self@.binarized_image.bits,
    {
        let image = self.image.clone();
        assert(image@ =~= self.image@);
        WitnessRecord {
            width: self.width,
            height: self.height,
            image,
            binarized_image: self.binarized_image.to_row_major(),
        }
    }
}

} // verus!
