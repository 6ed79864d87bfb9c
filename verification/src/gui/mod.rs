//! The control surface: events, images, and a canvas that records what is
//! drawn on it.

pub mod widget;

use crate::graphics::Color;
use vstd::prelude::*;

verus! {

#[derive(Clone, Copy, PartialEq, Eq, Structural, Debug)]
pub enum MouseBtn {
    R,
    L,
    M,
}

/// What the pointer did, and where.
#[derive(Clone, Copy, PartialEq, Eq, Structural, Debug)]
pub enum Event {
    MouseMove(i32, i32),
    MouseUp(MouseBtn, i32, i32),
    MouseDown(MouseBtn, i32, i32),
}

/// A part of the surface: it reacts to events and paints itself.
pub trait Component: Sized {
    /// The commands that the component draws, in order.
    spec fn painted(&self) -> Seq<DrawOp>;

    /// `next` is a state that the component can be in after it took `ev`.
    spec fn reacts(&self, ev: Event, next: &Self) -> bool;

    /// Takes an event and moves to a state that answers it.
    fn event(&mut self, ev: Event)
        ensures
            old(self).reacts(ev, final(self)),
    ;

    /// Draws the component behind what the canvas already holds.
    fn paint(&self, ctx: &mut Canvas)
        ensures
            final(ctx)@ == old(ctx)@ + self.painted(),
    ;
}

/// A rectangular view into a bitmap. The bitmap itself lives with the
/// window system and is known here by its number.
#[derive(Clone, Copy, PartialEq, Eq, Debug)]
pub struct Image {
    pub width: u32,
    pub height: u32,
    pub bitmap: u32,
    pub area: (i32, i32, i32, i32),
}

impl Image {
    /// The whole of bitmap `bitmap`, which is `width` by `height` pixels.
    pub fn whole(bitmap: u32, width: u32, height: u32) -> (img: Image)
        requires
            width <= i32::MAX,
            height <= i32::MAX,
        ensures
            img == (Image { width, height, bitmap, area: (0, 0, width as i32, height as i32) }),
    {
        Image { width, height, bitmap, area: (0, 0, width as i32, height as i32) }
    }

    /// The view of `w` by `h` pixels whose corner lies at `(x, y)` inside
    /// this view. Cropping twice adds the offsets up.
    pub fn crop(self, x: i32, y: i32, w: i32, h: i32) -> (img: Image)
        requires
            i32::MIN <= self.area.0 + x <= i32::MAX,
            i32::MIN <= self.area.1 + y <= i32::MAX,
        ensures
            img == (Image {
                area: ((self.area.0 + x) as i32, (self.area.1 + y) as i32, w, h),
                ..self
            }),
    {
        Image {
            width: self.width,
            height: self.height,
            bitmap: self.bitmap,
            area: (self.area.0 + x, self.area.1 + y, w, h),
        }
    }
}

/// One drawing command.
#[derive(Clone, Copy, PartialEq, Eq, Debug)]
pub enum DrawOp {
    /// Blend the view `image` onto the surface with its corner at `pos`.
    Image { pos: (i32, i32), image: Image },
    /// Fill the rectangle at `pos` of size `size` with the colour `color`,
    /// packed as the window system wants it.
    Rect { pos: (i32, i32), size: (u32, u32), color: u32 },
}

/// A colour as the window system wants it: `0x00BBGGRR`.
pub open spec fn colorref(c: Color) -> u32 {
    (c.r as u32 + c.g as u32 * 0x100 + c.b as u32 * 0x1_0000) as u32
}

/// A canvas. It records the commands drawn on it, in order, for the window
/// system to carry out.
pub struct Canvas {
    ops: Vec<DrawOp>,
}

impl Canvas {
    /// The commands recorded so far, in the order they were drawn.
    pub closed spec fn view(&self) -> Seq<DrawOp> {
        self.ops@
    }

    /// An empty canvas.
    pub fn new() -> (c: Canvas)
        ensures
            c@ == Seq::<DrawOp>::empty(),
    {
        Canvas { ops: Vec::new() }
    }

    /// Draws the view `img` with its corner at `pos`.
    pub fn fill_image(&mut self, pos: (i32, i32), img: &Image)
        ensures
            final(self)@ == old(self)@.push(DrawOp::Image { pos, image: *img }),
    {
        self.ops.push(DrawOp::Image { pos, image: *img });
    }

    /// Fills the rectangle at `pos` of size `size` with `color`. The alpha
    /// channel is not used.
    pub fn fill_rect(&mut self, pos: (i32, i32), size: (u32, u32), color: Color)
        ensures
            final(self)@ == old(self)@.push(DrawOp::Rect { pos, size, color: colorref(color) }),
    {
        let packed: u32 = color.r as u32 + color.g as u32 * 0x100 + color.b as u32 * 0x1_0000;
        self.ops.push(DrawOp::Rect { pos, size, color: packed });
    }

    /// The number of commands recorded.
    pub fn len(&self) -> (n: usize)
        ensures
            n == self@.len(),
    {
        self.ops.len()
    }

    /// The command with index `i`.
    pub fn op(&self, i: usize) -> (d: DrawOp)
        requires
            i < self@.len(),
        ensures
            d == self@[i as int],
    {
        self.ops[i]
    }
}

} // verus!
