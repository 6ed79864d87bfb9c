use arnaudio::editor::{Tab, TabGroup};
use arnaudio::graphics::Color;
use arnaudio::gui::widget::{SeqDirection, SeqPaint, Slider, SliderAction, SliderStyle};
use arnaudio::gui::{Canvas, DrawOp, Event, Image, MouseBtn};

#[test]
fn rgb_is_opaque() {
    assert_eq!(Color::rgb(1, 2, 3), Color { r: 1, g: 2, b: 3, a: 255 });
}

#[test]
fn hex_splits_the_bytes() {
    assert_eq!(Color::hex(0x12_34_56), Color { r: 0x12, g: 0x34, b: 0x56, a: 255 });
    assert_eq!(Color::hex(0), Color::rgb(0, 0, 0));
    assert_eq!(Color::hex(0xff_ff_ff), Color::rgb(255, 255, 255));
}

#[test]
fn hex_ignores_the_top_byte() {
    assert_eq!(Color::hex(0xab_12_34_56), Color::rgb(0x12, 0x34, 0x56));
}

#[test]
fn hex_reads_back_rgb() {
    for (r, g, b) in [(0u8, 0u8, 0u8), (255, 0, 1), (17, 200, 99), (255, 255, 255)] {
        let x = ((r as u32) << 16) | ((g as u32) << 8) | b as u32;
        assert_eq!(Color::hex(x), Color::rgb(r, g, b));
    }
}

#[test]
fn crop_adds_offsets() {
    let img = Image::whole(3, 100, 50);
    assert_eq!(img.area, (0, 0, 100, 50));
    let a = img.crop(10, 5, 20, 20);
    assert_eq!(a.area, (10, 5, 20, 20));
    let b = a.crop(3, 4, 8, 9);
    assert_eq!(b.area, (13, 9, 8, 9));
    assert_eq!((b.width, b.height, b.bitmap), (100, 50, 3));
}

#[test]
fn canvas_records_in_order() {
    let img = Image::whole(1, 10, 10);
    let mut c = Canvas::new();
    assert_eq!(c.len(), 0);
    c.fill_image((4, 5), &img);
    c.fill_rect((1, 2), (3, 4), Color::rgb(0x11, 0x22, 0x33));
    assert_eq!(c.len(), 2);
    assert_eq!(c.op(0), DrawOp::Image { pos: (4, 5), image: img });
    assert_eq!(c.op(1), DrawOp::Rect { pos: (1, 2), size: (3, 4), color: 0x00_33_22_11 });
}

#[test]
fn strip_painter_starts_on_first_section() {
    let img = Image::whole(2, 22, 22 * 49);
    let p = SeqPaint::new(img, (0, 0), (22, 22), SeqDirection::Vertical, 22, 49);
    let mut c = Canvas::new();
    p.paint(&mut c, 55, 83);
    assert_eq!(
        c.op(0),
        DrawOp::Image { pos: (55, 83), image: Image { area: (0, 0, 22, 22), ..img } }
    );
}

#[test]
fn strip_painter_moves_along_its_direction() {
    let img = Image::whole(2, 16 * 9, 92);
    let mut p = SeqPaint::new(img, (0, 0), (16, 92), SeqDirection::Horizontal, 16, 9);
    p.set_index(8);
    let mut c = Canvas::new();
    p.paint(&mut c, 0, 0);
    assert_eq!(c.op(0), DrawOp::Image { pos: (0, 0), image: Image { area: (128, 0, 16, 92), ..img } });

    let img = Image::whole(2, 22, 22 * 49);
    let mut p = SeqPaint::new(img, (1, 2), (22, 22), SeqDirection::Vertical, 22, 49);
    p.set_index(3);
    let mut c = Canvas::new();
    p.paint(&mut c, 0, 0);
    assert_eq!(c.op(0), DrawOp::Image { pos: (0, 0), image: Image { area: (1, 68, 22, 22), ..img } });
}

#[test]
fn slider_is_grabbed_only_when_hovered() {
    let mut s = Slider::new(10, 10, 20, 20, SliderStyle::Vertical);
    assert_eq!(s.event(Event::MouseDown(MouseBtn::L, 15, 15)), SliderAction::Idle);
    assert!(!s.active);
    assert_eq!(s.event(Event::MouseMove(15, 15)), SliderAction::Idle);
    assert_eq!(s.event(Event::MouseDown(MouseBtn::R, 15, 15)), SliderAction::Idle);
    assert_eq!(s.event(Event::MouseDown(MouseBtn::L, 15, 15)), SliderAction::Capture);
    assert!(s.active);
    assert_eq!(s.event(Event::MouseDown(MouseBtn::L, 15, 15)), SliderAction::Idle);
}

#[test]
fn slider_edges_are_outside() {
    let mut s = Slider::new(10, 10, 20, 20, SliderStyle::Vertical);
    s.event(Event::MouseMove(10, 15));
    assert_eq!(s.event(Event::MouseDown(MouseBtn::L, 10, 15)), SliderAction::Idle);
    s.event(Event::MouseMove(30, 15));
    assert_eq!(s.event(Event::MouseDown(MouseBtn::L, 30, 15)), SliderAction::Idle);
    s.event(Event::MouseMove(29, 11));
    assert_eq!(s.event(Event::MouseDown(MouseBtn::L, 29, 11)), SliderAction::Capture);
}

#[test]
fn slider_drags_up_for_more() {
    let mut s = Slider::new(0, 0, 20, 20, SliderStyle::Vertical);
    s.event(Event::MouseMove(5, 10));
    s.event(Event::MouseDown(MouseBtn::L, 5, 10));
    assert_eq!(s.event(Event::MouseMove(5, 4)), SliderAction::Drag(6));
    assert_eq!(s.event(Event::MouseMove(9, 7)), SliderAction::Drag(-3));
    assert_eq!(s.event(Event::MouseUp(MouseBtn::L, 9, 7)), SliderAction::Release);
    assert_eq!(s.event(Event::MouseMove(9, 0)), SliderAction::Idle);
    assert_eq!(s.event(Event::MouseUp(MouseBtn::L, 9, 0)), SliderAction::Idle);
}

#[test]
fn inverse_slider_drags_down_for_more() {
    let mut s = Slider::new(0, 0, 20, 20, SliderStyle::VerticalInverse);
    s.event(Event::MouseMove(5, 10));
    s.event(Event::MouseDown(MouseBtn::L, 5, 10));
    assert_eq!(s.event(Event::MouseMove(5, 4)), SliderAction::Drag(-6));
    assert_eq!(s.event(Event::MouseMove(5, 14)), SliderAction::Drag(10));
}

#[test]
fn slider_drag_across_the_whole_range_does_not_wrap() {
    let mut s = Slider::new(i32::MIN, i32::MIN, i32::MAX, i32::MAX, SliderStyle::Vertical);
    s.active = true;
    s.event(Event::MouseMove(0, i32::MIN));
    assert_eq!(s.event(Event::MouseMove(0, i32::MAX)), SliderAction::Drag(-(u32::MAX as i64)));
}

fn tab(i: i32, img: Image) -> Tab {
    Tab::new(
        img,
        (322 + i * 25, 135),
        (18, 12),
        (18 * i, 0),
        (18 * i, 12),
        vec![(i * 6 + 31) as usize, (i * 6 + 32) as usize],
    )
}

#[test]
fn tab_button_area_is_open() {
    let t = tab(0, Image::whole(9, 90, 24));
    assert!(t.in_btn_area(323, 136));
    assert!(t.in_btn_area(339, 146));
    assert!(!t.in_btn_area(322, 136));
    assert!(!t.in_btn_area(323, 135));
    assert!(!t.in_btn_area(340, 136));
    assert!(!t.in_btn_area(323, 147));
}

#[test]
fn tab_button_near_the_edge_of_the_range() {
    let t = Tab::new(Image::whole(9, 90, 24), (i32::MAX - 5, 0), (18, 12), (0, 0), (0, 12), vec![]);
    assert!(t.in_btn_area(i32::MAX, 1));
}

#[test]
fn tab_shows_the_face_for_its_value() {
    let img = Image::whole(9, 90, 24);
    let mut t = tab(2, img);
    let mut c = Canvas::new();
    t.paint_btn(&mut c);
    t.update_value(true);
    t.paint_btn(&mut c);
    t.update_value(false);
    t.paint_btn(&mut c);
    let free = DrawOp::Image { pos: (372, 135), image: Image { area: (36, 0, 18, 12), ..img } };
    let pressed = DrawOp::Image { pos: (372, 135), image: Image { area: (36, 12, 18, 12), ..img } };
    assert_eq!(c.op(0), free);
    assert_eq!(c.op(1), pressed);
    assert_eq!(c.op(2), free);
    assert_eq!(t.children(), &vec![43, 44]);
}

fn group() -> (TabGroup, Image) {
    let img = Image::whole(9, 90, 24);
    (TabGroup::new((0..5).map(|i| tab(i, img)).collect()), img)
}

fn faces(g: &TabGroup) -> Vec<i32> {
    let mut c = Canvas::new();
    g.paint(&mut c);
    (0..c.len())
        .map(|i| match c.op(i) {
            DrawOp::Image { image, .. } => image.area.1,
            _ => panic!("a tab paints an image"),
        })
        .collect()
}

#[test]
fn group_starts_with_first_tab_pressed() {
    let (g, _) = group();
    assert_eq!(g.active(), 0);
    assert_eq!(faces(&g), vec![12, 0, 0, 0, 0]);
    assert_eq!(g.active_children(), &vec![31, 32]);
}

#[test]
fn click_on_a_button_presses_that_tab_only() {
    let (mut g, _) = group();
    assert_eq!(g.event(Event::MouseDown(MouseBtn::L, 322 + 3 * 25 + 1, 136)), Some(3));
    assert_eq!(g.active(), 3);
    assert_eq!(faces(&g), vec![0, 0, 0, 12, 0]);
    assert_eq!(g.active_children(), &vec![49, 50]);
}

#[test]
fn other_events_leave_the_group() {
    let (mut g, _) = group();
    g.set_active(2);
    assert_eq!(g.event(Event::MouseDown(MouseBtn::L, 0, 0)), None);
    assert_eq!(g.event(Event::MouseDown(MouseBtn::R, 323, 136)), None);
    assert_eq!(g.event(Event::MouseUp(MouseBtn::L, 323, 136)), None);
    assert_eq!(g.event(Event::MouseMove(323, 136)), None);
    assert_eq!(g.active(), 2);
    assert_eq!(faces(&g), vec![0, 0, 12, 0, 0]);
}

#[test]
fn click_on_the_pressed_tab_keeps_it_pressed() {
    let (mut g, _) = group();
    assert_eq!(g.event(Event::MouseDown(MouseBtn::L, 323, 136)), Some(0));
    assert_eq!(faces(&g), vec![12, 0, 0, 0, 0]);
}

#[test]
fn last_of_two_overlapping_buttons_wins() {
    let img = Image::whole(9, 90, 24);
    let a = Tab::new(img, (0, 0), (10, 10), (0, 0), (0, 12), vec![1]);
    let b = Tab::new(img, (5, 0), (10, 10), (18, 0), (18, 12), vec![2]);
    let mut g = TabGroup::new(vec![a, b]);
    assert_eq!(g.event(Event::MouseDown(MouseBtn::L, 7, 5)), Some(1));
    assert_eq!(g.event(Event::MouseDown(MouseBtn::L, 3, 5)), Some(0));
}
