use inky_ssd1608::Inky1608;
use inky_ssd1608::eeprom::EEPType;

fn panel() -> Inky1608 {
    let eep = EEPType { width: 212, height: 104, colour: 1, pcb_variant: 12, display_variant: 10 };
    Inky1608::new(Some((212, 104)), Some("black"), 0, 22, 27, 17, false, false, eep)
        .expect("inky new")
}

#[test]
fn blank_planes() {
    let inky = panel();
    let (a, b) = inky.pack_planes();
    assert_eq!(a.len(), 104 * 212 / 8);
    assert_eq!(b.len(), a.len());
    assert!(a.iter().all(|&v| v == 0xff));
    assert!(b.iter().all(|&v| v == 0x00));
}

#[test]
fn pixel_round_trip_rotated() {
    // rotation -90: offset = x * cols + (cols - y) = 5 * 104 + 101 = 621,
    // so byte 77 carries the pixel at bit 7 - (621 % 8) = 2, inverted.
    let mut inky = panel();
    inky.set_pixel(5, 3, true);
    assert_eq!(inky.framebuffer[621], true);
    let (a, _) = inky.pack_planes();
    assert_eq!(a[77], 0xff ^ (1 << 2));
    for (i, &v) in a.iter().enumerate() {
        if i != 77 {
            assert_eq!(v, 0xff);
        }
    }
}

#[test]
fn pixel_set_then_cleared() {
    let mut inky = panel();
    inky.set_pixel(5, 3, true);
    inky.set_pixel(5, 3, false);
    let (a, _) = inky.pack_planes();
    assert!(a.iter().all(|&v| v == 0xff));
}

#[test]
fn out_of_bounds_writes_ignored() {
    let mut inky = panel();
    let before = inky.framebuffer.clone();
    inky.set_pixel(212, 0, true); // x == rotated columns
    inky.set_pixel(0, 104, true); // y == rotated rows
    inky.set_pixel(5000, 5000, true);
    assert_eq!(inky.framebuffer, before);
}

#[test]
fn top_row_corner_offset_ignored() {
    // (x, y) = (211, 0) maps to offset 211 * 104 + 104, one past the buffer:
    // the write lands nowhere and must not fail.
    let mut inky = panel();
    let before = inky.framebuffer.clone();
    inky.set_pixel(211, 0, true);
    assert_eq!(inky.framebuffer, before);
}

#[test]
fn packing_is_idempotent() {
    let mut inky = panel();
    inky.set_pixel(0, 1, true);
    inky.set_pixel(17, 42, true);
    inky.set_pixel(211, 103, true);
    let first = inky.pack_planes();
    let second = inky.pack_planes();
    assert_eq!(first, second);
}
