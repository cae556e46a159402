use vstd::prelude::*;

verus! {

/// Identification record held in the panel's EEPROM, decoded from its fixed
/// 29-byte layout: width and height as little-endian 16-bit values, then the
/// colour code, the PCB variant and the display variant.
#[derive(PartialEq, Eq, Structural, Debug, Clone, Copy)]
pub struct EEPType {
    pub width: u16,
    pub height: u16,
    pub colour: u8,
    pub pcb_variant: u8,
    pub display_variant: u8,
}

/// The colour name a colour code stands for; codes outside the table mean
/// "unknown".
pub open spec fn spec_colour_name(code: u8) -> Seq<char> {
    if code == 1 {
        "black"@
    } else if code == 2 {
        "red"@
    } else if code == 3 {
        "yellow"@
    } else if code == 5 {
        "7colour"@
    } else {
        "unknown"@
    }
}

/// The board name a display-variant code stands for; codes outside the table
/// mean "unknown".
pub open spec fn spec_display_name(code: u8) -> Seq<char> {
    if code == 1 {
        "Red pHAT (High-Temp)"@
    } else if code == 2 {
        "Yellow wHAT"@
    } else if code == 3 {
        "Black wHAT"@
    } else if code == 4 {
        "Black pHAT"@
    } else if code == 5 {
        "Yellow pHAT"@
    } else if code == 6 {
        "Red wHAT"@
    } else if code == 7 {
        "Red wHAT (High-Temp)"@
    } else if code == 8 {
        "Red wHAT"@
    } else if code == 10 {
        "Black pHAT (SSD1608)"@
    } else if code == 11 {
        "Red pHAT (SSD1608)"@
    } else if code == 12 {
        "Yellow pHAT (SSD1608)"@
    } else if code == 14 {
        "7-Colour (UC8159)"@
    } else if code == 16 {
        "7-Colour 640x400 (UC8159)"@
    } else {
        "unknown"@
    }
}

impl EEPType {
    /// Decode the fixed-layout identification block into its fields.
    pub fn new(data: &[u8; 29]) -> (r: EEPType)
        ensures
            r.width == data@[0] + 256 * data@[1],
            r.height == data@[2] + 256 * data@[3],
            r.colour == data@[4],
            r.pcb_variant == data@[5],
            r.display_variant == data@[6],
    {
        EEPType {
            width: data[0] as u16 + 256 * (data[1] as u16),
            height: data[2] as u16 + 256 * (data[3] as u16),
            colour: data[4],
            pcb_variant: data[5],
            display_variant: data[6],
        }
    }

    /// The name of the panel's colour capability, from the colour-code table.
    pub fn colour_name(&self) -> (r: &str)
        ensures
            r@ == spec_colour_name(self.colour),
    {
        match self.colour {
            1 => "black",
            2 => "red",
            3 => "yellow",
            5 => "7colour",
            _ => "unknown",
        }
    }

    /// The board name for the panel's display-variant code.
    pub fn display_name(&self) -> (r: &str)
        ensures
            r@ == spec_display_name(self.display_variant),
    {
        match self.display_variant {
            1 => "Red pHAT (High-Temp)",
            2 => "Yellow wHAT",
            3 => "Black wHAT",
            4 => "Black pHAT",
            5 => "Yellow pHAT",
            6 => "Red wHAT",
            7 => "Red wHAT (High-Temp)",
            8 => "Red wHAT",
            10 => "Black pHAT (SSD1608)",
            11 => "Red pHAT (SSD1608)",
            12 => "Yellow pHAT (SSD1608)",
            14 => "7-Colour (UC8159)",
            16 => "7-Colour 640x400 (UC8159)",
            _ => "unknown",
        }
    }
}

} // verus!
