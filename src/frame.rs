use vstd::prelude::*;

verus! {

pub const FRAME_WIDTH: usize = 256;

pub const FRAME_HEIGHT: usize = 240;

pub const BYTES_PER_PIXEL: usize = 3;

/// Length of a frame's pixel data.
pub const FRAME_BYTES: usize = 184320;

/// Offset of the first byte of pixel (x, y).
pub open spec fn pixel_offset(x: int, y: int) -> int {
    (y * FRAME_WIDTH + x) * BYTES_PER_PIXEL
}

/// Every pixel of a frame set to `rgb`.
pub open spec fn filled(rgb: (u8, u8, u8)) -> Seq<u8> {
    Seq::new(
        FRAME_BYTES as nat,
        |i: int|
            if i % 3 == 0 {
                rgb.0
            } else if i % 3 == 1 {
                rgb.1
            } else {
                rgb.2
            },
    )
}

/// `data` with pixel (x, y) set to `rgb`.
pub open spec fn with_pixel(data: Seq<u8>, x: int, y: int, rgb: (u8, u8, u8)) -> Seq<u8> {
    data.update(pixel_offset(x, y), rgb.0).update(pixel_offset(x, y) + 1, rgb.1).update(
        pixel_offset(x, y) + 2,
        rgb.2,
    )
}

/// A 256 x 240 picture of packed RGB24 pixels, row by row.
pub struct Frame {
    data: Vec<u8>,
}

impl View for Frame {
    type V = Seq<u8>;

    closed spec fn view(&self) -> Seq<u8> {
        self.data@
    }
}

impl Frame {
    pub open spec fn wf(&self) -> bool {
        self@.len() == FRAME_BYTES
    }

    pub fn new() -> (r: Frame)
        ensures
            r.wf(),
            forall|i: int| 0 <= i < FRAME_BYTES ==> r@[i] == 0,
    {
        Frame { data: vec![0u8; FRAME_BYTES] }
    }

    /// Sets pixel (x, y) to `rgb`.
    pub fn write(&mut self, x: usize, y: usize, rgb: (u8, u8, u8))
        requires
            old(self).wf(),
            x < FRAME_WIDTH,
            y < FRAME_HEIGHT,
        ensures
            final(self)@ == with_pixel(old(self)@, x as int, y as int, rgb),
    {
        proof {
            assert(y * FRAME_WIDTH + x < FRAME_WIDTH * FRAME_HEIGHT) by (nonlinear_arith)
                requires
                    x < FRAME_WIDTH,
                    y < FRAME_HEIGHT,
            ;
        }
        let base = (y * FRAME_WIDTH + x) * BYTES_PER_PIXEL;
        self.data.set(base, rgb.0);
        self.data.set(base + 1, rgb.1);
        self.data.set(base + 2, rgb.2);
    }

    pub fn data_rgb8(&self) -> (r: &[u8])
        ensures
            r@ == self@,
    {
        self.data.as_slice()
    }

    /// Sets every pixel to `rgb`.
    pub fn clear_with(&mut self, rgb: (u8, u8, u8))
        requires
            old(self).wf(),
        ensures
            final(self).wf(),
            final(self)@ == filled(rgb),
    {
        let mut base: usize = 0;
        while base < self.data.len()
            invariant
                self.data@.len() == FRAME_BYTES,
                base % 3 == 0,
                base <= FRAME_BYTES,
                forall|i: int|
                    0 <= i < base ==> self.data@[i] == (if i % 3 == 0 {
                        rgb.0
                    } else if i % 3 == 1 {
                        rgb.1
                    } else {
                        rgb.2
                    }),
            decreases FRAME_BYTES - base,
        {
            self.data.set(base, rgb.0);
            self.data.set(base + 1, rgb.1);
            self.data.set(base + 2, rgb.2);
            base = base + 3;
        }
        proof {
            assert(self.data@ =~= filled(rgb));
        }
    }
}

} // verus!
