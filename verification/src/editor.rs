//! The tabs of the editor: a row of buttons of which one is pressed, each
//! with the controls that show while it is.

use crate::gui::{Canvas, DrawOp, Event, Image, MouseBtn};
use vstd::prelude::*;

verus! {

/// A tab: a button that shows one of two sections of an image, and the
/// numbers of the controls that belong to it.
pub struct Tab {
    btn_img: Image,
    btn_pos: (i32, i32),
    btn_size: (i32, i32),
    sec1_pos: (i32, i32),
    sec2_pos: (i32, i32),
    btn_sec: Image,
    children: Vec<usize>,
}

/// The section of `img` of size `size` whose corner lies at `pos`.
pub open spec fn section(img: Image, pos: (i32, i32), size: (i32, i32)) -> Image {
    Image {
        area: ((img.area.0 + pos.0) as i32, (img.area.1 + pos.1) as i32, size.0, size.1),
        ..img
    }
}

/// The section of `img` at `pos` has its corner within the range of the
/// coordinates.
pub open spec fn in_range(img: Image, pos: (i32, i32)) -> bool {
    &&& i32::MIN <= img.area.0 + pos.0 <= i32::MAX
    &&& i32::MIN <= img.area.1 + pos.1 <= i32::MAX
}

impl Tab {
    /// The section that the button shows while it is pressed (`true`) or
    /// not (`false`).
    pub closed spec fn face(&self, pressed: bool) -> Image {
        section(
            self.btn_img,
            if pressed {
                self.sec2_pos
            } else {
                self.sec1_pos
            },
            self.btn_size,
        )
    }

    /// The section that the button shows now.
    pub closed spec fn shown(&self) -> Image {
        self.btn_sec
    }

    /// Where the button lies.
    pub closed spec fn pos(&self) -> (i32, i32) {
        self.btn_pos
    }

    /// How large the button is.
    pub closed spec fn size(&self) -> (i32, i32) {
        self.btn_size
    }

    /// The numbers of the controls of this tab.
    pub closed spec fn controls(&self) -> Seq<usize> {
        self.children@
    }

    /// Both faces of the button lie within the range of the coordinates.
    pub closed spec fn wf(&self) -> bool {
        in_range(self.btn_img, self.sec1_pos) && in_range(self.btn_img, self.sec2_pos)
    }

    /// The point `(x, y)` lies strictly inside the button.
    pub open spec fn covers(&self, x: i32, y: i32) -> bool {
        &&& x > self.pos().0
        &&& y > self.pos().1
        &&& x < self.pos().0 + self.size().0
        &&& y < self.pos().1 + self.size().1
    }

    /// A tab whose button lies at `btn_pos`, is `btn_size` large and shows
    /// the section of `img` at `sec1_pos` while free and the one at
    /// `sec2_pos` while pressed. It starts free.
    pub fn new(
        img: Image,
        btn_pos: (i32, i32),
        btn_size: (i32, i32),
        sec1_pos: (i32, i32),
        sec2_pos: (i32, i32),
        children: Vec<usize>,
    ) -> (tab: Tab)
        requires
            in_range(img, sec1_pos),
            in_range(img, sec2_pos),
        ensures
            tab.wf(),
            tab.pos() == btn_pos,
            tab.size() == btn_size,
            tab.controls() == children@,
            tab.face(false) == section(img, sec1_pos, btn_size),
            tab.face(true) == section(img, sec2_pos, btn_size),
            tab.shown() == tab.face(false),
    {
        let mut tab = Tab {
            btn_sec: img,
            btn_img: img,
            btn_pos,
            btn_size,
            sec1_pos,
            sec2_pos,
            children,
        };
        tab.update_value(false);
        tab
    }

    /// Presses the button (`true`) or sets it free (`false`).
    pub fn update_value(&mut self, value: bool)
        requires
            old(self).wf(),
        ensures
            final(self).wf(),
            final(self).shown() == old(self).face(value),
            final(self).face(true) == old(self).face(true),
            final(self).face(false) == old(self).face(false),
            final(self).pos() == old(self).pos(),
            final(self).size() == old(self).size(),
            final(self).controls() == old(self).controls(),
    {
        let (x, y) = if value {
            self.sec2_pos
        } else {
            self.sec1_pos
        };
        self.btn_sec = self.btn_img.crop(x, y, self.btn_size.0, self.btn_size.1);
    }

    /// Whether the point `(x, y)` lies strictly inside the button.
    pub fn in_btn_area(&self, x: i32, y: i32) -> (b: bool)
        ensures
            b == self.covers(x, y),
    {
        x > self.btn_pos.0 && y > self.btn_pos.1 && (x as i64) < self.btn_pos.0 as i64
            + self.btn_size.0 as i64 && (y as i64) < self.btn_pos.1 as i64 + self.btn_size.1 as i64
    }

    /// Paints the button as it shows now.
    pub fn paint_btn(&self, canvas: &mut Canvas)
        ensures
            final(canvas)@ == old(canvas)@.push(
                DrawOp::Image { pos: self.pos(), image: self.shown() },
            ),
    {
        canvas.fill_image(self.btn_pos, &self.btn_sec);
    }

    /// The numbers of the controls of this tab.
    pub fn children(&self) -> (c: &Vec<usize>)
        ensures
            c@ == self.controls(),
    {
        &self.children
    }
}

/// A row of tabs of which exactly one is pressed.
pub struct TabGroup {
    active: usize,
    tabs: Vec<Tab>,
}

/// The point `(x, y)` hits the button of tab `i` of `tabs`.
pub open spec fn hits(tabs: Seq<Tab>, x: i32, y: i32, i: int) -> bool {
    0 <= i < tabs.len() && tabs[i].covers(x, y)
}

impl TabGroup {
    /// The tabs, in order.
    pub closed spec fn view(&self) -> Seq<Tab> {
        self.tabs@
    }

    /// The index of the pressed tab.
    pub closed spec fn pressed(&self) -> usize {
        self.active
    }

    /// There is a pressed tab, it shows its pressed face, and every other
    /// tab shows its free face.
    pub open spec fn wf(&self) -> bool {
        &&& self.pressed() < self@.len()
        &&& forall|i: int|
            0 <= i < self@.len() ==> (#[trigger] self@[i]).wf() && self@[i].shown()
                == self@[i].face(i == self.pressed())
    }

    /// The same tabs as in `before`, but for the face they show.
    pub open spec fn same_tabs(&self, before: Seq<Tab>) -> bool {
        &&& self@.len() == before.len()
        &&& forall|i: int|
            0 <= i < before.len() ==> (#[trigger] self@[i]).pos() == before[i].pos() && self@[i].size()
                == before[i].size() && self@[i].controls() == before[i].controls()
                && self@[i].face(true) == before[i].face(true) && self@[i].face(false)
                == before[i].face(false)
    }

    /// A group of the free tabs `tabs`, with the first one pressed.
    pub fn new(tabs: Vec<Tab>) -> (grp: TabGroup)
        requires
            tabs@.len() > 0,
            forall|i: int|
                0 <= i < tabs@.len() ==> (#[trigger] tabs@[i]).wf() && tabs@[i].shown()
                    == tabs@[i].face(false),
        ensures
            grp.wf(),
            grp.pressed() == 0,
            grp.same_tabs(tabs@),
    {
        let mut grp = TabGroup { active: 0, tabs };
        grp.tabs[0].update_value(true);
        grp
    }

    /// Presses tab `index` and sets the one that was pressed free.
    pub fn set_active(&mut self, index: usize)
        requires
            old(self).wf(),
            index < old(self)@.len(),
        ensures
            final(self).wf(),
            final(self).pressed() == index,
            final(self).same_tabs(old(self)@),
    {
        let was = self.active;
        self.tabs[was].update_value(false);
        self.tabs[index].update_value(true);
        self.active = index;
    }

    /// The index of the pressed tab.
    pub fn active(&self) -> (i: usize)
        ensures
            i == self.pressed(),
    {
        self.active
    }

    /// Takes an event. When the left button goes down on the button of a
    /// tab, that tab is pressed (the last one, where buttons overlap) and
    /// its index returned: the surface has to be painted again. Every other
    /// event leaves the group as it is.
    pub fn event(&mut self, ev: Event) -> (r: Option<usize>)
        requires
            old(self).wf(),
        ensures
            final(self).wf(),
            final(self).same_tabs(old(self)@),
            match r {
                Some(k) => {
                    &&& ev matches Event::MouseDown(MouseBtn::L, x, y)
                    &&& hits(old(self)@, x, y, k as int)
                    &&& forall|j: int| k < j ==> !hits(old(self)@, x, y, j)
                    &&& final(self).pressed() == k
                },
                None => {
                    &&& final(self).pressed() == old(self).pressed()
                    &&& ev matches Event::MouseDown(MouseBtn::L, x, y) ==> forall|j: int|
                        !hits(old(self)@, x, y, j)
                },
            },
    {
        match ev {
            Event::MouseDown(MouseBtn::L, x, y) => {
                let mut hit: Option<usize> = None;
                let mut i: usize = 0;
                while i < self.tabs.len()
                    invariant
                        i <= self.tabs@.len(),
                        self@ == old(self)@,
                        self.pressed() == old(self).pressed(),
                        match hit {
                            Some(k) => k < i && hits(self@, x, y, k as int) && forall|j: int|
                                k < j < i ==> !hits(self@, x, y, j),
                            None => forall|j: int| 0 <= j < i ==> !hits(self@, x, y, j),
                        },
                    decreases self.tabs@.len() - i,
                {
                    if self.tabs[i].in_btn_area(x, y) {
                        hit = Some(i);
                    }
                    i = i + 1;
                }
                match hit {
                    Some(k) => {
                        self.set_active(k);
                        Some(k)
                    },
                    None => None,
                }
            },
            _ => None,
        }
    }

    /// Paints the button of every tab, in order.
    pub fn paint(&self, canvas: &mut Canvas)
        requires
            self.wf(),
        ensures
            final(canvas)@.len() == old(canvas)@.len() + self@.len(),
            forall|i: int| 0 <= i < old(canvas)@.len() ==> final(canvas)@[i] == old(canvas)@[i],
            forall|i: int|
                0 <= i < self@.len() ==> #[trigger] final(canvas)@[old(canvas)@.len() + i]
                    == (DrawOp::Image { pos: self@[i].pos(), image: self@[i].shown() }),
    {
        let ghost before = canvas@;
        let mut i: usize = 0;
        while i < self.tabs.len()
            invariant
                i <= self.tabs@.len(),
                canvas@.len() == before.len() + i,
                forall|j: int| 0 <= j < before.len() ==> canvas@[j] == before[j],
                forall|j: int|
                    0 <= j < i ==> #[trigger] canvas@[before.len() + j] == (DrawOp::Image {
                        pos: self@[j].pos(),
                        image: self@[j].shown(),
                    }),
            decreases self.tabs@.len() - i,
        {
            self.tabs[i].paint_btn(canvas);
            i = i + 1;
        }
    }

    /// The numbers of the controls of the pressed tab: those that take
    /// events and are painted.
    pub fn active_children(&self) -> (c: &Vec<usize>)
        requires
            self.wf(),
        ensures
            c@ == self@[self.pressed() as int].controls(),
    {
        self.tabs[self.active].children()
    }
}

} // verus!
