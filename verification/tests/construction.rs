use inky_ssd1608::Colour;
use inky_ssd1608::Inky1608;
use inky_ssd1608::InkyError;
use inky_ssd1608::eeprom::EEPType;

fn eep(display_variant: u8) -> EEPType {
    EEPType { width: 250, height: 122, colour: 1, pcb_variant: 12, display_variant }
}

#[test]
#[should_panic]
fn bad_resolution() {
    Inky1608::new(Some((27, 10)), Some("black"), 8, 22, 27, 17, false, false, eep(10))
        .expect("bad resolution");
}

#[test]
#[should_panic]
fn bad_colour() {
    Inky1608::new(Some((212, 104)), Some("purple"), 8, 22, 27, 17, false, false, eep(10))
        .expect("bad colour");
}

#[test]
fn new() {
    let inky = Inky1608::new(Some((212, 104)), Some("black"), 0, 22, 27, 17, false, false, eep(10))
        .expect("inky new");
    assert_eq!(inky.cols, 104);
    assert_eq!(inky.rows, 212);
    assert_eq!(inky.rotation, -90);
    assert_eq!(inky.colour, Colour::Black);
}

#[test]
fn resolution_table_250x122() {
    let inky = Inky1608::new(Some((250, 122)), Some("red"), 0, 22, 27, 17, false, false, eep(11))
        .expect("inky new");
    assert_eq!(inky.width, 250);
    assert_eq!(inky.height, 122);
    assert_eq!(inky.cols, 136);
    assert_eq!(inky.rows, 250);
    assert_eq!(inky.rotation, -90);
    assert_eq!(inky.offset_x, 0);
    assert_eq!(inky.offset_y, 6);
    assert_eq!(inky.r_cols, 250);
    assert_eq!(inky.r_rows, 136);
    assert_eq!(inky.framebuffer.len(), 136 * 250);
}

#[test]
fn resolution_table_212x104() {
    let inky = Inky1608::new(Some((212, 104)), Some("yellow"), 0, 22, 27, 17, false, false, eep(12))
        .expect("inky new");
    assert_eq!(inky.width, 212);
    assert_eq!(inky.height, 104);
    assert_eq!(inky.cols, 104);
    assert_eq!(inky.rows, 212);
    assert_eq!(inky.rotation, -90);
    assert_eq!(inky.offset_x, 0);
    assert_eq!(inky.offset_y, 0);
    assert_eq!(inky.r_cols, 212);
    assert_eq!(inky.r_rows, 104);
    assert_eq!(inky.framebuffer.len(), 104 * 212);
}

#[test]
fn unsupported_resolutions_rejected() {
    for (w, h) in [(27u16, 10u16), (0, 0), (122, 250), (104, 212), (400, 300), (212, 105)] {
        let r = Inky1608::new(Some((w, h)), Some("black"), 0, 22, 27, 17, false, false, eep(10));
        assert_eq!(r.unwrap_err(), InkyError::UnsupportedResolution);
    }
}

#[test]
fn valid_colours_accepted() {
    let cases = [("red", Colour::Red), ("black", Colour::Black), ("yellow", Colour::Yellow)];
    for (name, mode) in cases {
        let inky =
            Inky1608::new(Some((250, 122)), Some(name), 0, 22, 27, 17, false, false, eep(10))
                .expect("inky new");
        assert_eq!(inky.colour, mode);
        assert_eq!(inky.border_colour, Colour::White);
    }
}

#[test]
fn invalid_colours_rejected() {
    for name in ["purple", "", "Black", "redd", "white", "7colour", "unknown"] {
        let r = Inky1608::new(Some((250, 122)), Some(name), 0, 22, 27, 17, false, false, eep(10));
        assert_eq!(r.unwrap_err(), InkyError::UnsupportedColour);
    }
}

#[test]
fn incompatible_variant_rejected() {
    for v in [0u8, 1, 9, 13, 255] {
        let r = Inky1608::new(Some((250, 122)), Some("black"), 0, 22, 27, 17, false, false, eep(v));
        assert_eq!(r.unwrap_err(), InkyError::IncompatiblePanel);
    }
    for v in [10u8, 11, 12] {
        let r = Inky1608::new(Some((250, 122)), Some("black"), 0, 22, 27, 17, false, false, eep(v));
        assert!(r.is_ok());
    }
}

#[test]
fn variant_gate_checked_before_resolution() {
    let r = Inky1608::new(Some((27, 10)), Some("purple"), 0, 22, 27, 17, false, false, eep(9));
    assert_eq!(r.unwrap_err(), InkyError::IncompatiblePanel);
}

#[test]
fn detected_geometry_and_colour_used_when_unspecified() {
    let detected = EEPType { width: 212, height: 104, colour: 2, pcb_variant: 12, display_variant: 11 };
    let inky = Inky1608::new(None, None, 0, 22, 27, 17, false, false, detected).expect("inky new");
    assert_eq!(inky.cols, 104);
    assert_eq!(inky.rows, 212);
    assert_eq!(inky.colour, Colour::Red);

    let undetectable = EEPType { width: 3, height: 4, colour: 0, pcb_variant: 12, display_variant: 11 };
    let r = Inky1608::new(None, Some("black"), 0, 22, 27, 17, false, false, undetectable);
    assert_eq!(r.unwrap_err(), InkyError::UnsupportedResolution);
    let r = Inky1608::new(Some((250, 122)), None, 0, 22, 27, 17, false, false, undetectable);
    assert_eq!(r.unwrap_err(), InkyError::UnsupportedColour);
}

#[test]
fn error_messages() {
    assert_eq!(InkyError::UnsupportedResolution.message(), "invalid resolution");
    assert_eq!(InkyError::UnsupportedColour.message(), "invalid colour");
    assert_eq!(InkyError::IncompatiblePanel.message(), "incompatible panel");
}

#[test]
fn construction_stores_handles_and_flags() {
    let inky = Inky1608::new(Some((250, 122)), Some("black"), 3, 22, 27, 17, true, false, eep(10))
        .expect("inky new");
    assert_eq!(inky.cs_channel, 3);
    assert_eq!(inky.dc_pin, 22);
    assert_eq!(inky.reset_pin, 27);
    assert_eq!(inky.busy_pin, 17);
    assert!(inky.h_flip);
    assert!(!inky.v_flip);
    assert!(inky.framebuffer.iter().all(|p| !p));
}
