use enki::cursor::Cursor;
use enki::math::IVec2;
use enki::state::camera::Camera;
use enki::state::enki::{Enki, Key};
use enki::state::State;

fn v(x: i32, y: i32) -> IVec2 {
    IVec2::new(x, y)
}

#[test]
fn key_checks_catch_overflow() {
    let mut s: State<u8> = State { enki: Enki::new() };
    s.enki.modal_mode = true;
    assert!(s.key_fits(Key::LowerL, true, false, false));
    s.enki.camera.origin = v(i32::MAX, 0);
    assert!(!s.key_fits(Key::LowerL, true, false, false));
    assert!(s.key_fits(Key::LowerH, true, false, false));
    assert!(s.key_fits(Key::LowerL, false, false, false));
    assert!(s.key_fits(Key::LowerW, true, false, false));
    s.enki.cell_cursor = v(0, i32::MIN);
    assert!(!s.key_fits(Key::LowerO, true, false, false));
    assert!(s.key_fits(Key::LowerI, true, false, false));
    s.enki.camera = Camera { origin: v(0, 0), span: v(i32::MAX, 1) };
    assert!(!s.key_fits(Key::LowerL, true, true, false));
    assert!(s.key_fits(Key::LowerL, true, false, true));
    assert!(!s.enki.key_fits(Key::LowerH, true, true, false));
    s.enki.modal_mode = false;
    assert!(s.enki.key_fits(Key::LowerH, true, true, false));
}

#[test]
fn viewport_check() {
    let mut e: Enki<u8> = Enki::new();
    assert!(e.can_update_viewport(v(1920, 1080), v(2560, 1440)));
    e.camera.span = v(0, 1);
    assert!(!e.can_update_viewport(v(1920, 1080), v(2560, 1440)));
    e.camera.span = v(1, 1);
    e.grid.insert(v(2_000_000, 0), 1);
    assert!(!e.can_update_viewport(v(1920, 1080), v(1920, 1080)));
    assert!(e.can_update_viewport(v(1, 1), v(1, 1)));
}

/// The bytes of a cursor file with one image per (nominal size, delay),
/// each `size / 24` pixels wide and high.
fn cursor_file(images: &[(u32, u32)]) -> Vec<u8> {
    let words = |out: &mut Vec<u8>, ws: &[u32]| {
        for w in ws {
            out.extend_from_slice(&w.to_le_bytes());
        }
    };
    let mut out = Vec::new();
    out.extend_from_slice(b"Xcur");
    words(&mut out, &[16, 0x1_0000, images.len() as u32]);
    let mut pos = 16 + 12 * images.len() as u32;
    let mut body = Vec::new();
    for &(size, delay) in images {
        let side = size / 24;
        words(&mut out, &[0xfffd_0002, size, pos]);
        words(&mut body, &[0x24, 0xfffd_0002, size, 1, side, side, 0, 0, delay]);
        body.extend(std::iter::repeat(0u8).take((4 * side * side) as usize));
        pos = 16 + 12 * images.len() as u32 + body.len() as u32;
    }
    out.extend_from_slice(&body);
    out
}

#[test]
fn cursor_check() {
    let file = cursor_file(&[(24, u32::MAX), (24, 1)]);
    let c = Cursor::load(Some(file.as_slice()), None, vec![]);
    assert!(!c.can_get_image(1));
    let file = cursor_file(&[(24, 5), (48, u32::MAX)]);
    let c = Cursor::load(Some(file.as_slice()), None, vec![]);
    assert!(c.can_get_image(1));
    assert!(!c.can_get_image(u32::MAX));
    let file = cursor_file(&[]);
    let c = Cursor::load(Some(file.as_slice()), None, vec![]);
    assert!(!c.can_get_image(1));
    let c = Cursor::load(None, None, vec![]);
    assert!(c.can_get_image(1));
}
