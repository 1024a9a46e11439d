//! A width x height color buffer with a parallel depth buffer and z-buffered
//! point plotting.
//!
//! Depth values are plain integer keys that must order like the depths they
//! stand for; any order-preserving encoding of nonnegative depth works (the
//! bit pattern of a nonnegative IEEE single is one such encoding, with
//! [`FAR_DEPTH`] as the bits of positive infinity). The depth test itself is
//! purely an order comparison, so it is stated and proved over the keys.

use vstd::prelude::*;

verus! {

/// The far sentinel every depth slot is reset to by a clear: the
/// order-preserving key of positive infinity. Every finite depth key is
/// smaller.
pub const FAR_DEPTH: u32 = 0x7F80_0000;

/// Color and depth storage for one frame, row-major, with a current-draw-color
/// register that feeds each point write.
pub struct Framebuffer {
    /// Width in pixels.
    pub width: usize,
    /// Height in pixels.
    pub height: usize,
    /// The color buffer, one packed `0xRRGGBB` value per pixel, row-major.
    pub buffer: Vec<u32>,
    /// The depth buffer, one depth key per pixel, row-major.
    pub zbuffer: Vec<u32>,
    /// The color a clear fills the color buffer with.
    pub background_color: u32,
    /// The color the next point write will store.
    pub current_color: u32,
}

impl Framebuffer {
    /// Both buffers hold exactly one slot per pixel.
    pub open spec fn wf(self) -> bool {
        &&& self.colors().len() == self.width * self.height
        &&& self.depths().len() == self.width * self.height
    }

    /// The color buffer's contents.
    pub open spec fn colors(self) -> Seq<u32> {
        self.buffer@
    }

    /// The depth buffer's contents.
    pub open spec fn depths(self) -> Seq<u32> {
        self.zbuffer@
    }

    /// The row-major slot of pixel `(x, y)`.
    pub open spec fn index_of(self, x: int, y: int) -> int {
        y * self.width + x
    }

    /// The stored color at pixel `(x, y)`.
    pub open spec fn color_at(self, x: int, y: int) -> u32 {
        self.colors()[self.index_of(x, y)]
    }

    /// The stored depth key at pixel `(x, y)`.
    pub open spec fn depth_at(self, x: int, y: int) -> u32 {
        self.depths()[self.index_of(x, y)]
    }

    /// A new buffer of the given size, cleared to black with every depth slot
    /// at the far sentinel.
    pub fn new(width: usize, height: usize) -> (fb: Framebuffer)
        requires
            width * height <= usize::MAX,
        ensures
            fb.wf(),
            fb.width == width,
            fb.height == height,
            fb.background_color == 0,
            fb.current_color == 0,
            forall|i: int| 0 <= i < fb.colors().len() ==> fb.colors()[i] == 0,
            forall|i: int| 0 <= i < fb.depths().len() ==> fb.depths()[i] == FAR_DEPTH,
    {
        let size = width * height;
        let mut buffer: Vec<u32> = Vec::new();
        let mut zbuffer: Vec<u32> = Vec::new();
        let mut i: usize = 0;
        while i < size
            invariant
                i <= size,
                buffer@.len() == i,
                zbuffer@.len() == i,
                forall|j: int| 0 <= j < i ==> buffer@[j] == 0,
                forall|j: int| 0 <= j < i ==> zbuffer@[j] == FAR_DEPTH,
            decreases size - i,
        {
            buffer.push(0);
            zbuffer.push(FAR_DEPTH);
            i += 1;
        }
        Framebuffer { width, height, buffer, zbuffer, background_color: 0, current_color: 0 }
    }

    /// Sets the color that `clear` fills with.
    pub fn set_background_color(&mut self, color: u32)
        ensures
            *final(self) == (Framebuffer { background_color: color, ..*old(self) }),
    {
        self.background_color = color;
    }

    /// Sets the color that the next `point` stores.
    pub fn set_current_color(&mut self, color: u32)
        ensures
            *final(self) == (Framebuffer { current_color: color, ..*old(self) }),
    {
        self.current_color = color;
    }

    /// Resets every color slot to the background color and every depth slot to
    /// the far sentinel, starting a fresh frame.
    pub fn clear(&mut self)
        requires
            old(self).wf(),
        ensures
            final(self).wf(),
            final(self).width == old(self).width,
            final(self).height == old(self).height,
            final(self).background_color == old(self).background_color,
            final(self).current_color == old(self).current_color,
            forall|i: int|
                0 <= i < final(self).colors().len() ==> final(self).colors()[i] == old(
                    self,
                ).background_color,
            forall|i: int| 0 <= i < final(self).depths().len() ==> final(self).depths()[i] == FAR_DEPTH,
    {
        let size = self.buffer.len();
        let mut i: usize = 0;
        while i < size
            invariant
                size == self.buffer.len(),
                size == self.zbuffer.len(),
                i <= size,
                self.width == old(self).width,
                self.height == old(self).height,
                self.background_color == old(self).background_color,
                self.current_color == old(self).current_color,
                forall|j: int| 0 <= j < i ==> self.buffer@[j] == self.background_color,
                forall|j: int| 0 <= j < i ==> self.zbuffer@[j] == FAR_DEPTH,
            decreases size - i,
        {
            let c = self.background_color;
            self.buffer[i] = c;
            self.zbuffer[i] = FAR_DEPTH;
            i += 1;
        }
    }

    /// Plots the current draw color at `(x, y)` under the depth test: out of
    /// bounds is a no-op; a depth key at most the stored one wins the pixel
    /// (so of two writes at equal depth, the later wins); a larger key leaves
    /// the pixel untouched. Stored depth keys never increase.
    pub fn point(&mut self, x: usize, y: usize, depth: u32)
        requires
            old(self).wf(),
        ensures
            final(self).wf(),
            final(self).width == old(self).width,
            final(self).height == old(self).height,
            final(self).background_color == old(self).background_color,
            final(self).current_color == old(self).current_color,
            x < old(self).width && y < old(self).height && depth <= old(self).depth_at(
                x as int,
                y as int,
            ) ==> {
                &&& final(self).colors() == old(self).colors().update(
                    old(self).index_of(x as int, y as int),
                    old(self).current_color,
                )
                &&& final(self).depths() == old(self).depths().update(
                    old(self).index_of(x as int, y as int),
                    depth,
                )
            },
            !(x < old(self).width && y < old(self).height && depth <= old(self).depth_at(
                x as int,
                y as int,
            )) ==> *final(self) == *old(self),
            forall|i: int|
                0 <= i < final(self).depths().len() ==> final(self).depths()[i] <= old(
                    self,
                ).depths()[i],
    {
        if x < self.width && y < self.height {
            let size = self.buffer.len();
            proof {
                assert(y * self.width + x < self.width * self.height) by (nonlinear_arith)
                    requires
                        x < self.width,
                        y < self.height,
                ;
                assert(y * self.width + x < size);
            }
            let idx = y * self.width + x;
            if depth <= self.zbuffer[idx] {
                let c = self.current_color;
                self.buffer[idx] = c;
                self.zbuffer[idx] = depth;
            }
        }
    }
}

} // verus!
