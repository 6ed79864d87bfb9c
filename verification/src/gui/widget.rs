//! Widgets: a strip painter and the pointer logic of a slider.

use crate::gui::{Canvas, Component, DrawOp, Event, Image, MouseBtn};
use vstd::prelude::*;

verus! {

pub enum SliderStyle {
    Vertical,
    VerticalInverse,
}

pub enum SeqDirection {
    Horizontal,
    Vertical,
}

/// A group of widgets of one kind over an optional background.
pub struct Group<C: Component> {
    pub children: Vec<C>,
    pub bg: Option<(i32, i32, Image)>,
}

impl<C: Component> Component for Group<C> {
    /// Paints the background, then every widget in order.
    fn paint(&self, canvas: &mut Canvas) {
        let ghost before = canvas@;
        match self.bg {
            Some((x, y, bg)) => canvas.fill_image((x, y), &bg),
            None => {},
        }
        let mut i: usize = 0;
        while i < self.children.len()
            invariant
                i <= self.children@.len(),
                canvas@ == before + background(self.bg) + painted_all(
                    self.children@.take(i as int),
                ),
            decreases self.children@.len() - i,
        {
            proof {
                lemma_painted_all_step(self.children@, i as int);
            }
            self.children[i].paint(canvas);
            i = i + 1;
        }
        assert(self.children@.take(i as int) =~= self.children@);
    }

    /// Hands the event to every widget in order.
    fn event(&mut self, ev: Event) {
        let n = self.children.len();
        let mut i: usize = 0;
        while i < n
            invariant
                i <= n,
                n == self.children@.len(),
                n == old(self).children@.len(),
                self.bg == old(self).bg,
                forall|j: int|
                    0 <= j < i ==> (#[trigger] old(self).children@[j]).reacts(
                        ev,
                        &self.children@[j],
                    ),
                forall|j: int| i <= j < n ==> #[trigger] self.children@[j] == old(self).children@[j],
            decreases n - i,
        {
            self.children[i].event(ev);
            i = i + 1;
        }
    }

    /// The background, then what every widget draws, in order.
    open spec fn painted(&self) -> Seq<DrawOp> {
        background(self.bg) + painted_all(self.children@)
    }

    /// The group keeps its background and its widgets, and every widget
    /// answered the event.
    open spec fn reacts(&self, ev: Event, next: &Self) -> bool {
        &&& next.bg == self.bg
        &&& next.children@.len() == self.children@.len()
        &&& forall|j: int|
            0 <= j < self.children@.len() ==> (#[trigger] self.children@[j]).reacts(
                ev,
                &next.children@[j],
            )
    }
}

/// What a background draws: its image at its place, or nothing.
pub open spec fn background(bg: Option<(i32, i32, Image)>) -> Seq<DrawOp> {
    match bg {
        Some((x, y, image)) => seq![DrawOp::Image { pos: (x, y), image }],
        None => Seq::empty(),
    }
}

/// What the widgets `cs` draw one after the other.
pub open spec fn painted_all<C: Component>(cs: Seq<C>) -> Seq<DrawOp>
    decreases cs.len(),
{
    if cs.len() == 0 {
        Seq::empty()
    } else {
        painted_all(cs.drop_last()) + cs.last().painted()
    }
}

/// The first `i + 1` widgets draw what the first `i` draw, then what widget
/// `i` draws.
pub proof fn lemma_painted_all_step<C: Component>(cs: Seq<C>, i: int)
    requires
        0 <= i < cs.len(),
    ensures
        painted_all(cs.take(i + 1)) == painted_all(cs.take(i)) + cs[i].painted(),
{
    assert(cs.take(i + 1).drop_last() =~= cs.take(i));
}

/// Paints a different section of one image for each value: the sections lie
/// in a strip, `distance` pixels apart.
pub struct SeqPaint {
    img: Image,
    pos: (u16, u16),
    size: (u16, u16),
    dir: SeqDirection,
    distance: u16,
    last: u16,
    section: Image,
}

/// The corner of section `i` of a strip that starts at `pos` and runs in
/// direction `dir` with `distance` pixels between sections.
pub open spec fn section_corner(pos: (u16, u16), dir: SeqDirection, distance: u16, i: int) -> (
    int,
    int,
) {
    match dir {
        SeqDirection::Horizontal => (pos.0 + i * distance, pos.1 as int),
        SeqDirection::Vertical => (pos.0 as int, pos.1 + i * distance),
    }
}

impl SeqPaint {
    /// The image the sections are cut from.
    pub closed spec fn img(&self) -> Image {
        self.img
    }

    /// The section that is painted now.
    pub closed spec fn section(&self) -> Image {
        self.section
    }

    /// The index of the last section.
    pub closed spec fn last(&self) -> u16 {
        self.last
    }

    /// The corner of section `i` inside the image.
    pub closed spec fn corner(&self, i: int) -> (int, int) {
        section_corner(self.pos, self.dir, self.distance, i)
    }

    /// The size of every section.
    pub closed spec fn size(&self) -> (u16, u16) {
        self.size
    }

    /// Every section up to the last has its corner within the range of the
    /// coordinates, also when counted from the corner of the image's view.
    pub closed spec fn wf(&self) -> bool {
        &&& self.pos.0 + self.last * self.distance <= u16::MAX
        &&& self.pos.1 + self.last * self.distance <= u16::MAX
        &&& self.img.area.0 + u16::MAX <= i32::MAX
        &&& self.img.area.1 + u16::MAX <= i32::MAX
        &&& self.img.area.0 >= i32::MIN
        &&& self.img.area.1 >= i32::MIN
    }

    /// A painter of `count` sections of `img`. It starts on the first one.
    pub fn new(
        img: Image,
        pos: (u16, u16),
        size: (u16, u16),
        dir: SeqDirection,
        dist: u16,
        count: u16,
    ) -> (p: SeqPaint)
        requires
            count >= 1,
            pos.0 + (count - 1) * dist <= u16::MAX,
            pos.1 + (count - 1) * dist <= u16::MAX,
            img.area.0 + u16::MAX <= i32::MAX,
            img.area.1 + u16::MAX <= i32::MAX,
        ensures
            p.wf(),
            p.img() == img,
            p.last() == count - 1,
            p.size() == size,
            forall|i: int| p.corner(i) == section_corner(pos, dir, dist, i),
            p.section() == (Image {
                area: (
                    (img.area.0 + pos.0) as i32,
                    (img.area.1 + pos.1) as i32,
                    size.0 as i32,
                    size.1 as i32,
                ),
                ..img
            }),
    {
        let section = img.crop(pos.0 as i32, pos.1 as i32, size.0 as i32, size.1 as i32);
        SeqPaint { img, pos, size, dir, distance: dist, last: count - 1, section }
    }

    /// Switches to section `i`.
    pub fn set_index(&mut self, i: u16)
        requires
            old(self).wf(),
            i <= old(self).last(),
        ensures
            final(self).wf(),
            final(self).img() == old(self).img(),
            final(self).last() == old(self).last(),
            final(self).size() == old(self).size(),
            forall|k: int| final(self).corner(k) == old(self).corner(k),
            final(self).section() == (Image {
                area: (
                    (old(self).img().area.0 + old(self).corner(i as int).0) as i32,
                    (old(self).img().area.1 + old(self).corner(i as int).1) as i32,
                    old(self).size().0 as i32,
                    old(self).size().1 as i32,
                ),
                ..old(self).img()
            }),
    {
        assert(i * self.distance <= self.last * self.distance) by (nonlinear_arith)
            requires
                i <= self.last,
                self.distance >= 0,
        ;
        let add: u16 = i * self.distance;
        let (x, y): (u16, u16) = match self.dir {
            SeqDirection::Horizontal => (self.pos.0 + add, self.pos.1),
            SeqDirection::Vertical => (self.pos.0, self.pos.1 + add),
        };
        self.section = self.img.crop(x as i32, y as i32, self.size.0 as i32, self.size.1 as i32);
    }

    /// Paints the current section with its corner at `(x, y)`.
    pub fn paint(&self, canvas: &mut Canvas, x: i32, y: i32)
        ensures
            final(canvas)@ == old(canvas)@.push(
                DrawOp::Image { pos: (x, y), image: self.section() },
            ),
    {
        canvas.fill_image((x, y), &self.section);
    }
}

/// What a slider asks of its surroundings after an event.
#[derive(Clone, Copy, PartialEq, Eq, Structural, Debug)]
pub enum SliderAction {
    /// Nothing to do.
    Idle,
    /// The slider was grabbed: the pointer is to be captured.
    Capture,
    /// The slider was let go: the pointer is to be set free.
    Release,
    /// The grabbed slider was dragged by this many pixels towards higher
    /// values.
    Drag(i64),
}

/// The pointer logic of a slider: where it lies, whether it is grabbed, and
/// where the pointer was seen last.
pub struct Slider {
    pub x: i32,
    pub y: i32,
    pub w: i32,
    pub h: i32,
    pub style: SliderStyle,
    pub active: bool,
    pub mouse_x: i32,
    pub mouse_y: i32,
}

/// The point `(px, py)` lies strictly inside the rectangle at `(x, y)` of
/// size `w` by `h`.
pub open spec fn inside(x: int, y: int, w: int, h: int, px: int, py: int) -> bool {
    px > x && px < x + w && py > y && py < y + h
}

impl Slider {
    /// A slider over the rectangle at `(x, y)` of size `w` by `h`, not
    /// grabbed, with the pointer at the origin.
    pub fn new(x: i32, y: i32, w: i32, h: i32, style: SliderStyle) -> (s: Slider)
        ensures
            s.x == x && s.y == y && s.w == w && s.h == h,
            s.style == style,
            !s.active,
            s.mouse_x == 0 && s.mouse_y == 0,
    {
        Slider { x, y, w, h, style, active: false, mouse_x: 0, mouse_y: 0 }
    }

    /// The pointer, as last seen, lies inside the slider.
    pub open spec fn hovered(&self) -> bool {
        inside(
            self.x as int,
            self.y as int,
            self.w as int,
            self.h as int,
            self.mouse_x as int,
            self.mouse_y as int,
        )
    }

    /// The pixels that a move of the pointer to height `y` drags the slider
    /// towards higher values: upwards for the plain style, downwards for the
    /// inverse one.
    pub open spec fn drag_to(&self, y: i32) -> int {
        match self.style {
            SliderStyle::Vertical => self.mouse_y - y,
            SliderStyle::VerticalInverse => y - self.mouse_y,
        }
    }

    /// Takes an event and says what follows from it.
    ///
    /// A move is remembered, and drags the slider if it is grabbed. The left
    /// button grabs the slider if it goes down while the pointer, as last
    /// seen, is inside and the slider is free; it lets go of a grabbed
    /// slider when it comes up. Other buttons do nothing.
    pub fn event(&mut self, ev: Event) -> (action: SliderAction)
        ensures
            final(self).x == old(self).x && final(self).y == old(self).y && final(self).w == old(
                self,
            ).w && final(self).h == old(self).h && final(self).style == old(self).style,
            match ev {
                Event::MouseMove(x, y) => {
                    &&& final(self).mouse_x == x && final(self).mouse_y == y
                    &&& final(self).active == old(self).active
                    &&& action == if old(self).active {
                        SliderAction::Drag(old(self).drag_to(y) as i64)
                    } else {
                        SliderAction::Idle
                    }
                },
                Event::MouseDown(MouseBtn::L, _, _) => {
                    &&& final(self).mouse_x == old(self).mouse_x && final(self).mouse_y == old(
                        self,
                    ).mouse_y
                    &&& final(self).active == (old(self).active || old(self).hovered())
                    &&& action == if !old(self).active && old(self).hovered() {
                        SliderAction::Capture
                    } else {
                        SliderAction::Idle
                    }
                },
                Event::MouseUp(MouseBtn::L, _, _) => {
                    &&& final(self).mouse_x == old(self).mouse_x && final(self).mouse_y == old(
                        self,
                    ).mouse_y
                    &&& !final(self).active
                    &&& action == if old(self).active {
                        SliderAction::Release
                    } else {
                        SliderAction::Idle
                    }
                },
                _ => {
                    &&& final(self).mouse_x == old(self).mouse_x && final(self).mouse_y == old(
                        self,
                    ).mouse_y
                    &&& final(self).active == old(self).active
                    &&& action == SliderAction::Idle
                },
            },
    {
        match ev {
            Event::MouseMove(x, y) => {
                let action = if self.active {
                    let ymov: i64 = y as i64 - self.mouse_y as i64;
                    let mov: i64 = match self.style {
                        SliderStyle::Vertical => -ymov,
                        SliderStyle::VerticalInverse => ymov,
                    };
                    SliderAction::Drag(mov)
                } else {
                    SliderAction::Idle
                };
                self.mouse_x = x;
                self.mouse_y = y;
                action
            },
            Event::MouseDown(MouseBtn::L, _, _) => {
                let mx: i64 = self.mouse_x as i64;
                let my: i64 = self.mouse_y as i64;
                if !self.active && mx > self.x as i64 && mx < self.x as i64 + self.w as i64 && my
                    > self.y as i64 && my < self.y as i64 + self.h as i64 {
                    self.active = true;
                    SliderAction::Capture
                } else {
                    SliderAction::Idle
                }
            },
            Event::MouseUp(MouseBtn::L, _, _) => {
                if self.active {
                    self.active = false;
                    SliderAction::Release
                } else {
                    SliderAction::Idle
                }
            },
            _ => SliderAction::Idle,
        }
    }
}

} // verus!
