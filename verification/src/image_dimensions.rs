use vstd::prelude::*;

verus! {

/// A voxel coordinate in the order the pixel arrays are indexed:
/// (layer, row, column, channel).
pub type Voxel = (int, int, int, int);

/// The logical shape of an image.
#[derive(Clone, Copy, Debug, PartialEq, Eq, Structural)]
pub struct ImageDim {
    pub width: usize,
    pub height: usize,
    pub depth: usize,
    pub channels: usize,
}

impl ImageDim {
    /// Every extent is at least one.
    pub open spec fn valid(self) -> bool {
        self.width >= 1 && self.height >= 1 && self.depth >= 1 && self.channels >= 1
    }

    /// The number of scalar elements of an image of this shape.
    pub open spec fn elements(self) -> nat {
        (self.depth * self.height * self.width * self.channels) as nat
    }

    /// The voxel lies inside an image of this shape.
    pub open spec fn contains(self, v: Voxel) -> bool {
        0 <= v.0 < self.depth && 0 <= v.1 < self.height && 0 <= v.2 < self.width && 0 <= v.3
            < self.channels
    }

    /// The position of a voxel when the elements are laid out layer by layer,
    /// row by row, column by column, channel by channel.
    pub open spec fn offset(self, v: Voxel) -> int {
        ((v.0 * self.height + v.1) * self.width + v.2) * self.channels + v.3
    }

    /// The shape as the pixel arrays carry it: (depth, height, width, channels).
    pub open spec fn shape(self) -> (usize, usize, usize, usize) {
        (self.depth, self.height, self.width, self.channels)
    }

    /// The image shape that an array shape (depth, height, width, channels)
    /// stands for.
    pub open spec fn of_shape(shape: (usize, usize, usize, usize)) -> ImageDim {
        ImageDim { width: shape.2, height: shape.1, depth: shape.0, channels: shape.3 }
    }

    pub fn new(width: usize, height: usize, depth: usize, channels: usize) -> (dim: Self)
        ensures
            dim.width == width,
            dim.height == height,
            dim.depth == depth,
            dim.channels == channels,
    {
        ImageDim { width, height, depth, channels }
    }

    /// The image shape of an array shape (depth, height, width, channels).
    pub fn from_shape(shape: (usize, usize, usize, usize)) -> (dim: Self)
        ensures
            dim == Self::of_shape(shape),
    {
        ImageDim { width: shape.2, height: shape.1, depth: shape.0, channels: shape.3 }
    }

    pub fn is_valid(&self) -> (ok: bool)
        ensures
            ok == self.valid(),
    {
        self.width >= 1 && self.height >= 1 && self.depth >= 1 && self.channels >= 1
    }

    /// The element count, where it fits the machine word.
    pub fn checked_elements(&self) -> (count: Option<usize>)
        ensures
            match count {
                Some(n) => n == self.elements(),
                None => self.elements() > usize::MAX,
            },
    {
        if self.depth == 0 || self.height == 0 || self.width == 0 || self.channels == 0 {
            assert(self.depth * self.height * self.width * self.channels == 0) by (nonlinear_arith)
                requires
                    self.depth == 0 || self.height == 0 || self.width == 0 || self.channels == 0,
            ;
            return Some(0);
        }
        let dh = match self.depth.checked_mul(self.height) {
            Some(n) => n,
            None => {
                assert(self.depth * self.height * self.width * self.channels >= self.depth
                    * self.height) by (nonlinear_arith)
                    requires
                        self.width >= 1,
                        self.channels >= 1,
                ;
                return None;
            },
        };
        let dhw = match dh.checked_mul(self.width) {
            Some(n) => n,
            None => {
                assert(self.depth * self.height * self.width * self.channels >= self.depth
                    * self.height * self.width) by (nonlinear_arith)
                    requires
                        self.channels >= 1,
                ;
                return None;
            },
        };
        dhw.checked_mul(self.channels)
    }
}

} // verus!
