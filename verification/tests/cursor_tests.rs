use enki::cursor::{fallback_image, frame, nearest_images, parse_u32, Cursor, CursorImage};

fn image(size: u32, width: u32, height: u32, delay: u32) -> CursorImage {
    CursorImage {
        size,
        width,
        height,
        xhot: 0,
        yhot: 0,
        delay,
        pixels_rgba: vec![size as u8],
        pixels_argb: vec![],
    }
}

#[test]
fn nearest_images_group_by_extent() {
    let images = vec![image(24, 24, 24, 10), image(32, 32, 32, 5), image(32, 32, 32, 7), image(48, 48, 48, 1)];
    assert_eq!(nearest_images(30, &images), vec![1, 2]);
    assert_eq!(nearest_images(24, &images), vec![0]);
    assert_eq!(nearest_images(100, &images), vec![3]);
    // A tie goes to the first image.
    assert_eq!(nearest_images(28, &images), vec![0]);
}

#[test]
fn frame_loops_through_the_animation() {
    let images = vec![image(24, 24, 24, 10), image(32, 32, 32, 5), image(32, 32, 32, 7)];
    assert_eq!(frame(0, 32, &images), 1);
    assert_eq!(frame(4, 32, &images), 1);
    assert_eq!(frame(5, 32, &images), 2);
    assert_eq!(frame(11, 32, &images), 2);
    assert_eq!(frame(12, 32, &images), 1);
    assert_eq!(frame(12 * 1000 + 6, 32, &images), 2);
    assert_eq!(frame(123, 20, &images), 0);
}

#[test]
fn frame_without_delays_shows_the_first() {
    let images = vec![image(32, 32, 32, 0), image(32, 32, 32, 0)];
    assert_eq!(frame(99, 32, &images), 0);
}

#[test]
fn parse_like_std() {
    for s in ["0", "24", "+7", "4294967295", "4294967296", "", "+", "-1", "12a", " 3", "007", "99999999999999"] {
        assert_eq!(parse_u32(s), s.parse::<u32>().ok(), "{}", s);
    }
}

/// The bytes of a cursor file holding one image per entry of `images`:
/// (nominal size, width, height, hotspot x, hotspot y, delay, pixel byte).
fn cursor_file(images: &[(u32, u32, u32, u32, u32, u32, u8)]) -> Vec<u8> {
    let mut out = Vec::new();
    let ntoc = images.len() as u32;
    out.extend_from_slice(b"Xcur");
    out.extend_from_slice(&16u32.to_le_bytes());
    out.extend_from_slice(&0x1_0000u32.to_le_bytes());
    out.extend_from_slice(&ntoc.to_le_bytes());
    let mut pos = 16 + 12 * ntoc;
    let mut chunks = Vec::new();
    for &(size, width, height, xhot, yhot, delay, pixel) in images {
        out.extend_from_slice(&0xfffd_0002u32.to_le_bytes());
        out.extend_from_slice(&size.to_le_bytes());
        out.extend_from_slice(&pos.to_le_bytes());
        let mut chunk = Vec::new();
        for word in [0x24, 0xfffd_0002, size, 1, width, height, xhot, yhot, delay] {
            chunk.extend_from_slice(&u32::to_le_bytes(word));
        }
        chunk.extend(std::iter::repeat(pixel).take((4 * width * height) as usize));
        pos += chunk.len() as u32;
        chunks.push(chunk);
    }
    for chunk in chunks {
        out.extend_from_slice(&chunk);
    }
    out
}

#[test]
fn load_uses_the_fallback_and_the_default_size() {
    let c = Cursor::load(None, None, vec![1, 2, 3]);
    let img = c.get_image(1, 5000);
    assert_eq!(img.width, 64);
    assert_eq!(img.height, 64);
    assert_eq!(img.size, 32);
    assert_eq!((img.xhot, img.yhot, img.delay), (1, 1, 1));
    assert_eq!(img.pixels_rgba, vec![1, 2, 3]);
    assert!(img.pixels_argb.is_empty());
    let f = fallback_image(vec![9]);
    assert_eq!((f.xhot, f.yhot, f.delay), (1, 1, 1));
}

#[test]
fn load_falls_back_on_a_file_that_does_not_parse() {
    let c = Cursor::load(Some(b"not a cursor".as_slice()), Some("abc"), vec![7]);
    let img = c.get_image(1, 0);
    assert_eq!((img.size, img.width, img.height, img.xhot, img.yhot), (32, 64, 64, 1, 1));
    assert_eq!(img.pixels_rgba, vec![7]);
    let c = Cursor::load(Some(&[][..]), Some("-1"), vec![7]);
    assert_eq!(c.get_image(1, 0).pixels_rgba, vec![7]);
}

#[test]
fn load_reads_the_images_of_a_cursor_file() {
    let file = cursor_file(&[(24, 2, 2, 1, 0, 30, 5), (48, 4, 4, 3, 2, 40, 6)]);
    let c = Cursor::load(Some(file.as_slice()), None, vec![]);
    let img = c.get_image(1, 0);
    assert_eq!((img.size, img.width, img.height, img.xhot, img.yhot, img.delay), (24, 2, 2, 1, 0, 30));
    assert_eq!(img.pixels_rgba, vec![5; 16]);
    assert_eq!(img.pixels_argb, vec![5; 16]);
    let img = c.get_image(2, 0);
    assert_eq!((img.size, img.width, img.height, img.xhot, img.yhot, img.delay), (48, 4, 4, 3, 2, 40));
    assert_eq!(img.pixels_rgba, vec![6; 64]);
}

#[test]
fn load_reads_the_size_setting() {
    let file = cursor_file(&[(24, 1, 1, 0, 0, 1, 1), (48, 2, 2, 0, 0, 1, 2)]);
    let c = Cursor::load(Some(file.as_slice()), Some("48"), vec![]);
    assert_eq!(c.get_image(1, 0).size, 48);
    assert_eq!(c.get_image(2, 0).size, 48);
    let c = Cursor::load(Some(file.as_slice()), Some("big"), vec![]);
    assert_eq!(c.get_image(1, 0).size, 24);
    assert_eq!(c.get_image(2, 0).size, 48);
}

#[test]
fn time_wraps_at_32_bits() {
    let file = cursor_file(&[(24, 1, 1, 0, 0, 3, 1), (24, 1, 1, 0, 0, 4, 2)]);
    let c = Cursor::load(Some(file.as_slice()), None, vec![]);
    let wrapped: u128 = (1u128 << 32) + 3;
    assert_eq!(c.get_image(1, wrapped).delay, 4);
    assert_eq!(c.get_image(1, 2).delay, 3);
}

#[test]
fn with_images_keeps_the_theme_images() {
    let images = vec![image(24, 24, 24, 1), image(48, 48, 48, 1)];
    let c = Cursor::with_images(Some(images.clone()), Some("48"), vec![]);
    assert_eq!(*c.get_image(1, 0), images[1]);
    let c = Cursor::with_images(Some(images.clone()), Some("007"), vec![]);
    assert_eq!(*c.get_image(1, 0), images[0]);
    let c = Cursor::with_images(None, Some("+48"), vec![4, 4]);
    assert_eq!(*c.get_image(1, 0), fallback_image(vec![4, 4]));
    assert_eq!(c.get_image(1, 0).pixels_rgba, vec![4, 4]);
}
