//! The frame: image dimensions and field of view, and a pixel buffer
//! of color vectors, one row per scanline.

use vstd::prelude::*;
use vstd::pervasive::VecAdditionalExecFns;
use crate::fx::Fx;
use crate::vec3::{Vec3f, v_zero};

verus! {

pub type FrameBuffer = Vec<Vec<Vec3f>>;

/// Image dimensions and the field of view, in degrees.
#[derive(Clone, Copy, PartialEq, Eq, Structural, Debug)]
pub struct Frame {
    pub width: usize,
    pub height: usize,
    pub fov_deg: Fx,
}

impl Frame {
    pub fn new(x: usize, y: usize, fov_deg: Fx) -> (r: Frame)
        ensures
            r == (Frame { width: x, height: y, fov_deg }),
    {
        Frame { width: x, height: y, fov_deg }
    }

    /// A fresh buffer of `height` rows of `width` pixels, all black.
    pub fn init_frame(self) -> (r: FrameBuffer)
        ensures
            r@.len() == self.height,
            forall|yy: int| 0 <= yy < self.height ==> (#[trigger] r@[yy])@.len() == self.width,
            forall|yy: int, xx: int|
                0 <= yy < self.height && 0 <= xx < self.width ==> (#[trigger] r@[yy]@[xx])
                    == v_zero(),
    {
        let mut fb: FrameBuffer = Vec::new();
        let mut y: usize = 0;
        while y < self.height
            invariant
                fb@.len() == y,
                y <= self.height,
                forall|yy: int| 0 <= yy < y ==> (#[trigger] fb@[yy])@.len() == self.width,
                forall|yy: int, xx: int|
                    0 <= yy < y && 0 <= xx < self.width ==> (#[trigger] fb@[yy]@[xx]) == v_zero(),
            decreases self.height - y,
        {
            let mut row: Vec<Vec3f> = Vec::new();
            let mut x: usize = 0;
            while x < self.width
                invariant
                    row@.len() == x,
                    x <= self.width,
                    forall|xx: int| 0 <= xx < x ==> (#[trigger] row@[xx]) == v_zero(),
                decreases self.width - x,
            {
                row.push(Vec3f::zero());
                x = x + 1;
            }
            fb.push(row);
            y = y + 1;
        }
        fb
    }

    /// Read one pixel. The coordinates must be inside the buffer.
    pub fn get_pixel(framebuf: FrameBuffer, x: usize, y: usize) -> (r: Vec3f)
        requires
            y < framebuf@.len(),
            x < framebuf@[y as int]@.len(),
        ensures
            r == framebuf@[y as int]@[x as int],
    {
        framebuf[y][x]
    }

    /// Write one pixel, leaving every other pixel as it was.
    pub fn set_pixel(framebuf: &mut FrameBuffer, x: usize, y: usize, rgb: Vec3f)
        requires
            y < old(framebuf)@.len(),
            x < old(framebuf)@[y as int]@.len(),
        ensures
            final(framebuf)@.len() == old(framebuf)@.len(),
            final(framebuf)@[y as int]@ == old(framebuf)@[y as int]@.update(x as int, rgb),
            forall|yy: int|
                0 <= yy < old(framebuf)@.len() && yy != y ==> final(framebuf)@[yy] == old(
                    framebuf,
                )@[yy],
    {
        let mut row = framebuf.remove(y);
        row.set(x, rgb);
        framebuf.insert(y, row);
        proof {
            assert forall|yy: int|
                0 <= yy < old(framebuf)@.len() && yy != y implies framebuf@[yy] == old(
                framebuf,
            )@[yy] by {
                if yy > y {
                    assert(framebuf@[yy] == old(framebuf)@.remove(y as int)[yy - 1]);
                }
            }
        }
    }
}

} // verus!
