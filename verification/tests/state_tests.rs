use enki::math::IVec2;
use enki::state::backend::{next_output_x, preferred_mode, surfaces_to_render, RenderResult};
use enki::state::camera::Camera;
use enki::state::enki::{Enki, Key, KeyResponse, Program};
use enki::state::State;

fn v(x: i32, y: i32) -> IVec2 {
    IVec2::new(x, y)
}

fn forwarded() -> KeyResponse {
    KeyResponse { intercepted: false, refresh_viewport: false, scale_changed: false, refocus: false, launch: None }
}

#[test]
fn camera_starts_on_one_cell() {
    let c = Camera::new();
    assert_eq!(c.origin, v(0, 0));
    assert_eq!(c.span, v(1, 1));
}

#[test]
fn camera_grow_shrink_pan() {
    let mut c = Camera::new();
    c.grow(v(-1, 0));
    assert_eq!(c.origin, v(-1, 0));
    assert_eq!(c.span, v(2, 1));
    c.grow(v(0, 1));
    assert_eq!(c.origin, v(-1, 0));
    assert_eq!(c.span, v(2, 2));
    c.shrink(v(0, 1));
    assert_eq!(c.span, v(2, 1));
    assert_eq!(c.origin, v(-1, 0));
    c.shrink(v(-1, 0));
    assert_eq!(c.span, v(1, 1));
    assert_eq!(c.origin, v(0, 0));
    // Shrinking at one cell changes nothing.
    c.shrink(v(-1, 0));
    assert_eq!(c.span, v(1, 1));
    assert_eq!(c.origin, v(0, 0));
    c.pan(v(3, -2));
    assert_eq!(c.origin, v(3, -2));
    c.pan(v(-3, 2));
    assert_eq!(c, Camera::new());
}

#[test]
fn shrink_undoes_grow() {
    let start = Camera { origin: v(4, -6), span: v(3, 2) };
    for d in [v(1, 0), v(-1, 0), v(0, 1), v(0, -1), v(-2, 3)] {
        let mut c = start;
        c.grow(d);
        c.shrink(d);
        assert_eq!(c, start);
    }
}

#[test]
fn layout_bindings() {
    let mut e: Enki<u8> = Enki::new();
    assert_eq!(e.process_input_event(Key::LowerL, true, false, false), forwarded());
    let r = e.process_input_event(Key::F12, true, false, false);
    assert!(e.modal_mode);
    assert_eq!(r, KeyResponse { intercepted: true, refresh_viewport: true, scale_changed: true, refocus: false, launch: None });
    let r = e.process_input_event(Key::UpperL, true, false, false);
    assert_eq!(e.camera.origin, v(1, 0));
    assert_eq!(r, KeyResponse { intercepted: true, refresh_viewport: true, scale_changed: false, refocus: false, launch: None });
    e.process_input_event(Key::LowerK, true, true, false);
    assert_eq!(e.camera.origin, v(1, -1));
    assert_eq!(e.camera.span, v(1, 2));
    e.process_input_event(Key::LowerJ, true, false, true);
    assert_eq!(e.camera.span, v(1, 1));
    assert_eq!(e.camera.origin, v(1, -1));
    let r = e.process_input_event(Key::Return, true, false, false);
    assert_eq!(r.launch, Some(Program::Alacritty));
    assert_eq!(r.launch.unwrap().command(), "alacritty");
    let r = e.process_input_event(Key::LowerW, true, false, false);
    assert_eq!(r.launch.map(|p| p.command()), Some("weston-terminal"));
    let r = e.process_input_event(Key::LowerP, true, false, false);
    assert_eq!(r, KeyResponse { intercepted: true, refresh_viewport: false, scale_changed: false, refocus: false, launch: None });
    assert_eq!(e.cell_cursor, v(0, 0));
    assert_eq!(e.process_input_event(Key::F12, false, false, false), forwarded());
    e.process_input_event(Key::F12, true, false, false);
    assert!(!e.modal_mode);
}

#[test]
fn compositor_bindings_move_the_cursor_and_carry_windows() {
    let mut s: State<&str> = State { enki: Enki::new() };
    s.enki.grid.insert(v(0, 0), "term");
    assert_eq!(s.process_input_event(Key::LowerP, true, false, false), forwarded());
    s.process_input_event(Key::AltR, true, false, false);
    assert!(s.enki.modal_mode);
    let r = s.process_input_event(Key::LowerP, true, false, false);
    assert_eq!(s.enki.cell_cursor, v(1, 0));
    assert_eq!(r, KeyResponse { intercepted: true, refresh_viewport: false, scale_changed: false, refocus: true, launch: None });
    s.process_input_event(Key::UpperU, true, false, false);
    assert_eq!(s.enki.cell_cursor, v(0, 0));
    let r = s.process_input_event(Key::LowerI, true, true, false);
    assert_eq!(s.enki.cell_cursor, v(0, 1));
    assert_eq!(r, KeyResponse { intercepted: true, refresh_viewport: true, scale_changed: false, refocus: true, launch: None });
    assert_eq!(s.enki.grid.get(&v(0, 1)), Some("term"));
    assert_eq!(s.enki.grid.get(&v(0, 0)), None);
    s.process_input_event(Key::LowerO, true, true, false);
    assert_eq!(s.enki.cell_cursor, v(0, 0));
    assert_eq!(s.enki.grid.get(&v(0, 0)), Some("term"));
    let r = s.process_input_event(Key::Return, true, true, false);
    assert_eq!(r.launch.map(|p| p.command()), Some("weston-terminal"));
    let r = s.process_input_event(Key::Return, true, false, false);
    assert_eq!(r.launch.map(|p| p.command()), Some("kitty"));
    let r = s.process_input_event(Key::LowerW, true, false, false);
    assert_eq!(r.launch.map(|p| p.command()), Some("firefox"));
    let r = s.process_input_event(Key::Other, true, false, false);
    assert_eq!(r, KeyResponse { intercepted: true, refresh_viewport: false, scale_changed: false, refocus: false, launch: None });
    let r = s.process_input_event(Key::F12, true, false, false);
    assert!(r.intercepted && r.launch.is_none());
    s.process_input_event(Key::AltR, true, false, false);
    assert!(!s.enki.modal_mode);
}

#[test]
fn carrying_there_and_back_restores_the_layout() {
    let mut s: State<u8> = State { enki: Enki::new() };
    s.enki.grid.insert(v(0, 0), 1);
    s.enki.grid.insert(v(1, 0), 2);
    s.enki.modal_mode = true;
    s.process_input_event(Key::LowerP, true, true, false);
    assert_eq!(s.enki.grid.get(&v(0, 0)), Some(2));
    assert_eq!(s.enki.grid.get(&v(1, 0)), Some(1));
    s.process_input_event(Key::LowerU, true, true, false);
    assert_eq!(s.enki.cell_cursor, v(0, 0));
    assert_eq!(s.enki.grid.get(&v(0, 0)), Some(1));
    assert_eq!(s.enki.grid.get(&v(1, 0)), Some(2));
}

#[test]
fn viewport_plan() {
    let mut s: State<u8> = State { enki: Enki::new() };
    s.enki.grid.insert(v(0, 0), 1);
    s.enki.grid.insert(v(1, -1), 2);
    s.enki.camera = Camera { origin: v(1, -1), span: v(2, 3) };
    let plan = s.update_viewport(v(1920, 1080), v(2560, 1440));
    assert_eq!(plan.cell_size, v(960, 360));
    assert_eq!(plan.output_location, v(960 - 320, -360 - 180));
    let mut windows = plan.windows.clone();
    windows.sort_by_key(|w| (w.0.x, w.0.y));
    assert_eq!(windows, vec![(v(0, 0), v(0, 0)), (v(1, -1), v(960, -360))]);
    let plan = s.enki.update_viewport(v(1920, 1080), v(1920, 1080));
    assert_eq!(plan.output_location, v(960, -360));
}

#[test]
fn backend_decisions() {
    assert_eq!(preferred_mode(&vec![]), None);
    assert_eq!(preferred_mode(&vec![false, false]), Some(0));
    assert_eq!(preferred_mode(&vec![false, true, true]), Some(1));
    assert_eq!(next_output_x(&vec![]), 0);
    assert_eq!(next_output_x(&vec![1920, 2560]), 4480);
    assert_eq!(surfaces_to_render(&vec![true, false, false, true]), vec![1, 2]);
    assert_eq!(surfaces_to_render(&vec![]), Vec::<usize>::new());
    assert_ne!(RenderResult::Submitted, RenderResult::Skipped);
}

#[test]
fn two_layouts_of_one_state_agree() {
    let mut s: State<u8> = State { enki: Enki::new() };
    for i in 0..5 {
        s.enki.grid.insert(v(i, 2 - i), i as u8);
    }
    s.enki.camera = Camera { origin: v(-1, 0), span: v(3, 2) };
    let p = s.update_viewport(v(1200, 800), v(1500, 1000));
    let q = s.enki.update_viewport(v(1200, 800), v(1500, 1000));
    assert_eq!(p.cell_size, q.cell_size);
    assert_eq!(p.output_location, q.output_location);
    let mut a = p.windows.clone();
    let mut b = q.windows.clone();
    a.sort_by_key(|w| (w.0.x, w.0.y));
    b.sort_by_key(|w| (w.0.x, w.0.y));
    assert_eq!(a, b);
    assert_eq!(a.len(), 5);
}

#[test]
fn released_keys_are_forwarded_and_change_nothing() {
    for modal in [false, true] {
        for key in [Key::F12, Key::AltR, Key::Return, Key::LowerW, Key::LowerL, Key::LowerP, Key::Other] {
            let mut e: Enki<u8> = Enki::new();
            e.modal_mode = modal;
            assert_eq!(e.process_input_event(key, false, true, false), forwarded());
            assert_eq!(e.modal_mode, modal);
            assert_eq!(e.camera, Camera::new());
            let mut s: State<u8> = State { enki: Enki::new() };
            s.enki.modal_mode = modal;
            assert_eq!(s.process_input_event(key, false, false, true), forwarded());
            assert_eq!(s.enki.modal_mode, modal);
            assert_eq!(s.enki.cell_cursor, v(0, 0));
        }
    }
}

#[test]
fn pressed_keys_are_consumed_exactly_in_the_mode() {
    for modal in [false, true] {
        for key in [Key::Return, Key::LowerW, Key::LowerH, Key::LowerU, Key::Other] {
            let mut e: Enki<u8> = Enki::new();
            e.modal_mode = modal;
            assert_eq!(e.process_input_event(key, true, false, false).intercepted, modal);
            assert_eq!(e.modal_mode, modal);
            assert_eq!(e.cell_cursor, v(0, 0));
        }
    }
}
