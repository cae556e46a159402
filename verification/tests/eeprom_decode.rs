use inky_ssd1608::eeprom::EEPType;

#[test]
fn eeptype_new() {
    let data = [0u8; 29];
    let e = EEPType::new(&data);
    assert_eq!(e.width, 0);
}

#[test]
fn decode_fields_little_endian() {
    let mut data = [0u8; 29];
    data[0] = 0xFA; // width 250
    data[1] = 0x00;
    data[2] = 0x7A; // height 122
    data[3] = 0x00;
    data[4] = 2; // red
    data[5] = 12;
    data[6] = 11;
    let e = EEPType::new(&data);
    assert_eq!(e.width, 250);
    assert_eq!(e.height, 122);
    assert_eq!(e.colour, 2);
    assert_eq!(e.pcb_variant, 12);
    assert_eq!(e.display_variant, 11);
}

#[test]
fn decode_wide_values() {
    let mut data = [0u8; 29];
    data[0] = 0x90; // width 400 = 0x0190
    data[1] = 0x01;
    data[2] = 0x2C; // height 300 = 0x012C
    data[3] = 0x01;
    let e = EEPType::new(&data);
    assert_eq!(e.width, 400);
    assert_eq!(e.height, 300);
}

#[test]
fn colour_name_table() {
    let mut data = [0u8; 29];
    let cases: [(u8, &str); 7] = [
        (0, "unknown"),
        (1, "black"),
        (2, "red"),
        (3, "yellow"),
        (4, "unknown"),
        (5, "7colour"),
        (200, "unknown"),
    ];
    for (code, name) in cases {
        data[4] = code;
        assert_eq!(EEPType::new(&data).colour_name(), name);
    }
}

#[test]
fn display_name_table() {
    let mut data = [0u8; 29];
    let cases: [(u8, &str); 8] = [
        (0, "unknown"),
        (1, "Red pHAT (High-Temp)"),
        (9, "unknown"),
        (10, "Black pHAT (SSD1608)"),
        (11, "Red pHAT (SSD1608)"),
        (12, "Yellow pHAT (SSD1608)"),
        (16, "7-Colour 640x400 (UC8159)"),
        (17, "unknown"),
    ];
    for (code, name) in cases {
        data[6] = code;
        assert_eq!(EEPType::new(&data).display_name(), name);
    }
}
