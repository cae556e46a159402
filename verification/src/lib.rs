use vstd::prelude::*;

pub mod eeprom;
pub mod ops;
pub mod plane;
pub mod text;

use crate::eeprom::EEPType;
use crate::eeprom::spec_colour_name;
use crate::plane::pack_bits;
use crate::plane::plane_byte;
use crate::plane::plane_bytes;
use crate::plane::plane_len;
use crate::plane::chunk;
use crate::plane::two_pow;
use crate::plane::lemma_pack_bits_bound;
use crate::plane::lemma_two_pow_mono;
use crate::plane::byte_bit;
use crate::plane::lemma_pixel_round_trip;
use crate::text::str_eq;
use crate::text::push_dec_u16;
use crate::text::push_dec_i16;
use crate::text::spec_dec_nat;
use crate::text::spec_dec_int;
use crate::ops::Op;
use crate::ops::ops_view;
use crate::ops::spec_setup_ops;
use crate::ops::spec_update_ops;
use crate::ops::DRIVER_CONTROL;
use crate::ops::DATA_MODE;
use crate::ops::SW_RESET;
use crate::ops::MASTER_ACTIVATE;
use crate::ops::WRITE_RAM;
use crate::ops::WRITE_ALTRAM;
use crate::ops::WRITE_VCOM;
use crate::ops::WRITE_LUT;
use crate::ops::WRITE_DUMMY;
use crate::ops::WRITE_GATELINE;
use crate::ops::WRITE_BORDER;
use crate::ops::SET_RAMXPOS;
use crate::ops::SET_RAMYPOS;
use crate::ops::SET_RAMXCOUNT;
use crate::ops::SET_RAMYCOUNT;

verus! {

/// The colour capability of a panel, also used for the border ring.
#[derive(PartialEq, Eq, Structural, Debug, Clone, Copy)]
pub enum Colour {
    White,
    Black,
    Red,
    Yellow,
    RedHt,
}

/// A configuration fault found while a panel instance is constructed.
#[derive(PartialEq, Eq, Structural, Debug, Clone, Copy)]
pub enum InkyError {
    /// The requested or detected resolution is outside the supported table.
    UnsupportedResolution,
    /// The requested or detected colour is not one the driver can use.
    UnsupportedColour,
    /// The detected display variant is not one this driver can drive.
    IncompatiblePanel,
}

impl InkyError {
    /// A short description of the fault.
    pub fn message(&self) -> (r: &str)
        ensures
            r@ == (match *self {
                InkyError::UnsupportedResolution => "invalid resolution"@,
                InkyError::UnsupportedColour => "invalid colour"@,
                InkyError::IncompatiblePanel => "incompatible panel"@,
            }),
    {
        match self {
            InkyError::UnsupportedResolution => "invalid resolution",
            InkyError::UnsupportedColour => "invalid colour",
            InkyError::IncompatiblePanel => "incompatible panel",
        }
    }
}

/// The waveform table a colour mode drives the panel with. The observed
/// configurations share one table, but each mode keeps its own entry so a
/// variant can diverge.
pub open spec fn spec_lut(colour: Colour) -> Seq<u8> {
    match colour {
        Colour::Black => spec_lut_values(),
        Colour::Red => spec_lut_values(),
        Colour::Yellow => spec_lut_values(),
        _ => spec_lut_values(),
    }
}

/// The 30 drive-voltage steps shared by the observed configurations.
pub open spec fn spec_lut_values() -> Seq<u8> {
    seq![
        0x02u8, 0x02, 0x01, 0x11, 0x12, 0x12, 0x22, 0x22, 0x66, 0x69,
        0x69, 0x59, 0x58, 0x99, 0x99, 0x88, 0x00, 0x00, 0x00, 0x00,
        0xF8, 0xB4, 0x13, 0x51, 0x35, 0x51, 0x51, 0x19, 0x01, 0x00,
    ]
}

/// The waveform table for a colour mode; an unknown mode falls back to the
/// black table.
pub fn get_lut(colour: &Colour) -> (lut: [u8; 30])
    ensures
        lut@ == spec_lut(*colour),
{
    let table: [u8; 30] = [
        0x02, 0x02, 0x01, 0x11, 0x12, 0x12, 0x22, 0x22, 0x66, 0x69,
        0x69, 0x59, 0x58, 0x99, 0x99, 0x88, 0x00, 0x00, 0x00, 0x00,
        0xF8, 0xB4, 0x13, 0x51, 0x35, 0x51, 0x51, 0x19, 0x01, 0x00,
    ];
    proof {
        assert(table@ =~= spec_lut_values());
    }
    match colour {
        Colour::Black => table,
        Colour::Red => table,
        Colour::Yellow => table,
        _ => table,
    }
}

/// The closed table of supported physical resolutions. Each entry fixes the
/// panel's internal column and row counts, its rotation in degrees, and its
/// RAM offsets.
pub open spec fn spec_resolution(w: u16, h: u16) -> Option<(u16, u16, i16, u16, u16)> {
    if w == 250 && h == 122 {
        Some((136u16, 250u16, -90i16, 0u16, 6u16))
    } else if w == 212 && h == 104 {
        Some((104u16, 212u16, -90i16, 0u16, 0u16))
    } else {
        None
    }
}

/// The colour mode a configuration string selects; only "red", "black" and
/// "yellow" are accepted.
pub open spec fn spec_colour_mode(name: Seq<char>) -> Option<Colour> {
    if name == "red"@ {
        Some(Colour::Red)
    } else if name == "black"@ {
        Some(Colour::Black)
    } else if name == "yellow"@ {
        Some(Colour::Yellow)
    } else {
        None
    }
}

/// The display variants this driver can drive.
pub open spec fn spec_variant_supported(v: u8) -> bool {
    v == 10 || v == 11 || v == 12
}

/// A panel instance: the resolved geometry, the colour configuration, the
/// waveform table, the transport line numbers the caller asked for, and the
/// logical framebuffer.
#[derive(Debug)]
pub struct Inky1608 {
    pub width: u16,
    pub height: u16,
    pub cols: u16,
    pub rows: u16,
    pub r_cols: u16,
    pub r_rows: u16,
    pub rotation: i16,
    pub offset_x: u16,
    pub offset_y: u16,
    pub colour: Colour,
    pub border_colour: Colour,
    pub lut: [u8; 30],
    pub cs_channel: u16,
    pub dc_pin: u64,
    pub reset_pin: u64,
    pub busy_pin: u64,
    pub h_flip: bool,
    pub v_flip: bool,
    pub eeprom: EEPType,
    pub framebuffer: Vec<bool>,
}

/// A zero-initialised pixel buffer.
fn zero_buffer(len: usize) -> (v: Vec<bool>)
    ensures
        v@ == Seq::new(len as nat, |i: int| false),
{
    let mut v: Vec<bool> = Vec::new();
    let mut i: usize = 0;
    while i < len
        invariant
            i <= len,
            v@.len() == i,
            forall|j: int| 0 <= j < i ==> v@[j] == false,
        decreases len - i,
    {
        v.push(false);
        i = i + 1;
    }
    proof {
        assert(v@ =~= Seq::new(len as nat, |i: int| false));
    }
    v
}

/// A one-byte payload.
fn vec1(a: u8) -> (v: Vec<u8>)
    ensures
        v@ == seq![a],
{
    let mut v: Vec<u8> = Vec::new();
    v.push(a);
    proof {
        assert(v@ =~= seq![a]);
    }
    v
}

/// A two-byte payload.
fn vec2(a: u8, b: u8) -> (v: Vec<u8>)
    ensures
        v@ == seq![a, b],
{
    let mut v: Vec<u8> = Vec::new();
    v.push(a);
    v.push(b);
    proof {
        assert(v@ =~= seq![a, b]);
    }
    v
}

/// A three-byte payload.
fn vec3(a: u8, b: u8, c: u8) -> (v: Vec<u8>)
    ensures
        v@ == seq![a, b, c],
{
    let mut v: Vec<u8> = Vec::new();
    v.push(a);
    v.push(b);
    v.push(c);
    proof {
        assert(v@ =~= seq![a, b, c]);
    }
    v
}

/// A four-byte payload.
fn vec4(a: u8, b: u8, c: u8, d: u8) -> (v: Vec<u8>)
    ensures
        v@ == seq![a, b, c, d],
{
    let mut v: Vec<u8> = Vec::new();
    v.push(a);
    v.push(b);
    v.push(c);
    v.push(d);
    proof {
        assert(v@ =~= seq![a, b, c, d]);
    }
    v
}

/// The waveform table as a payload.
fn lut_vec(lut: &[u8; 30]) -> (v: Vec<u8>)
    ensures
        v@ == lut@,
{
    let mut v: Vec<u8> = Vec::new();
    let mut i: usize = 0;
    while i < 30
        invariant
            i <= 30,
            v@.len() == i,
            forall|j: int| 0 <= j < i ==> v@[j] == lut@[j],
        decreases 30 - i,
    {
        v.push(lut[i]);
        i = i + 1;
    }
    proof {
        assert(v@ =~= lut@);
    }
    v
}

/// The colour word in the identity line.
pub open spec fn spec_colour_label(colour: Colour) -> Seq<char> {
    match colour {
        Colour::Black => "black"@,
        Colour::Red => "red"@,
        Colour::Yellow => "yellow"@,
        _ => "unknown!!"@,
    }
}

/// The identity line for a panel's geometry, rotation and colour.
pub open spec fn spec_ident_text(rows: u16, cols: u16, rotation: i16, colour: Colour) -> Seq<
    char,
> {
    "Inky is "@ + spec_dec_nat(rows as nat) + " rows x "@ + spec_dec_nat(cols as nat)
        + " cols, rotation "@ + spec_dec_int(rotation as int) + " and colour "@
        + spec_colour_label(colour)
}

impl Inky1608 {
    /// Internal consistency of a panel instance: the geometry comes from the
    /// resolution table, the rotated extents follow the rotation, the
    /// framebuffer covers the full grid, and the waveform table matches the
    /// colour mode.
    pub open spec fn wf(&self) -> bool {
        &&& spec_resolution(self.width, self.height) == Some(
            (self.cols, self.rows, self.rotation, self.offset_x, self.offset_y),
        )
        &&& if self.rotation == 90 || self.rotation == -90 {
            self.r_cols == self.rows && self.r_rows == self.cols
        } else {
            self.r_cols == self.cols && self.r_rows == self.rows
        }
        &&& self.framebuffer@.len() == self.cols * self.rows
        &&& self.lut@ == spec_lut(self.colour)
    }

    /// The two instances agree on everything except, possibly, the
    /// framebuffer and the border colour.
    pub open spec fn same_config(a: Inky1608, b: Inky1608) -> bool {
        &&& a.width == b.width
        &&& a.height == b.height
        &&& a.cols == b.cols
        &&& a.rows == b.rows
        &&& a.r_cols == b.r_cols
        &&& a.r_rows == b.r_rows
        &&& a.rotation == b.rotation
        &&& a.offset_x == b.offset_x
        &&& a.offset_y == b.offset_y
        &&& a.colour == b.colour
        &&& a.lut == b.lut
        &&& a.cs_channel == b.cs_channel
        &&& a.dc_pin == b.dc_pin
        &&& a.reset_pin == b.reset_pin
        &&& a.busy_pin == b.busy_pin
        &&& a.h_flip == b.h_flip
        &&& a.v_flip == b.v_flip
        &&& a.eeprom == b.eeprom
    }

    /// Construct a panel instance. The detected identification record fills
    /// in whatever the caller leaves unspecified; the display-variant gate,
    /// the resolution table and the colour table are all checked here, so an
    /// instance that exists is consistent for its whole life.
    pub fn new(
        resolution: Option<(u16, u16)>,
        colour: Option<&str>,
        cs_channel: u16,
        dc_pin: u64,
        reset_pin: u64,
        busy_pin: u64,
        h_flip: bool,
        v_flip: bool,
        eeprom: EEPType,
    ) -> (r: Result<Inky1608, InkyError>)
        ensures
            ({
                let res = match resolution {
                    Some(r0) => r0,
                    None => (eeprom.width, eeprom.height),
                };
                let cname = match colour {
                    Some(c) => c@,
                    None => spec_colour_name(eeprom.colour),
                };
                if !spec_variant_supported(eeprom.display_variant) {
                    r == Err::<Inky1608, InkyError>(InkyError::IncompatiblePanel)
                } else if spec_resolution(res.0, res.1) is None {
                    r == Err::<Inky1608, InkyError>(InkyError::UnsupportedResolution)
                } else if spec_colour_mode(cname) is None {
                    r == Err::<Inky1608, InkyError>(InkyError::UnsupportedColour)
                } else {
                    &&& r matches Ok(p)
                    &&& p.wf()
                    &&& p.width == res.0
                    &&& p.height == res.1
                    &&& Some((p.cols, p.rows, p.rotation, p.offset_x, p.offset_y))
                        == spec_resolution(res.0, res.1)
                    &&& Some(p.colour) == spec_colour_mode(cname)
                    &&& p.border_colour == Colour::White
                    &&& p.cs_channel == cs_channel
                    &&& p.dc_pin == dc_pin
                    &&& p.reset_pin == reset_pin
                    &&& p.busy_pin == busy_pin
                    &&& p.h_flip == h_flip
                    &&& p.v_flip == v_flip
                    &&& p.eeprom == eeprom
                    &&& p.framebuffer@ == Seq::new((p.cols * p.rows) as nat, |i: int| false)
                }
            }),
    {
        match eeprom.display_variant {
            10 | 11 | 12 => {}
            _ => {
                return Err(InkyError::IncompatiblePanel);
            }
        }

        let res: (u16, u16) = match resolution {
            Some(r0) => r0,
            None => (eeprom.width, eeprom.height),
        };

        let (cols, rows, rotation, offset_x, offset_y): (u16, u16, i16, u16, u16) =
            match (res.0, res.1) {
                (250, 122) => (136, 250, -90, 0, 6),
                (212, 104) => (104, 212, -90, 0, 0),
                _ => {
                    return Err(InkyError::UnsupportedResolution);
                }
            };

        let (r_cols, r_rows): (u16, u16) = if rotation == 90 || rotation == -90 {
            (rows, cols)
        } else {
            (cols, rows)
        };

        let col: &str = match colour {
            Some(c) => c,
            None => eeprom.colour_name(),
        };

        let mode: Colour = if str_eq(col, "red") {
            Colour::Red
        } else if str_eq(col, "black") {
            Colour::Black
        } else if str_eq(col, "yellow") {
            Colour::Yellow
        } else {
            return Err(InkyError::UnsupportedColour);
        };

        let lut = get_lut(&mode);
        proof {
            assert(cols * rows <= 34000);
        }
        let framebuffer = zero_buffer((cols as usize) * (rows as usize));

        Ok(Inky1608 {
            width: res.0,
            height: res.1,
            cols,
            rows,
            r_cols,
            r_rows,
            rotation,
            offset_x,
            offset_y,
            colour: mode,
            border_colour: Colour::White,
            lut,
            cs_channel,
            dc_pin,
            reset_pin,
            busy_pin,
            h_flip,
            v_flip,
            eeprom,
            framebuffer,
        })
    }

    /// The drawable extent, in the rotated, user-facing coordinate space.
    pub fn size(&self) -> (r: (u16, u16))
        ensures
            r == (self.r_cols, self.r_rows),
    {
        (self.r_cols, self.r_rows)
    }

    /// The physical buffer offset that the rotated coordinates (x, y)
    /// address: the rotation-aware mapping from the user-facing grid onto the
    /// row-major buffer in the panel's native scan order.
    pub open spec fn spec_offset(&self, x: u16, y: u16) -> int {
        if self.rotation == 90 || self.rotation == -90 {
            x * self.cols + (self.cols - y)
        } else {
            y * self.r_cols + x
        }
    }

    /// Write one pixel, addressed in the rotated coordinate space. A write
    /// outside the drawable extent, or whose mapped offset falls outside the
    /// buffer, changes nothing and is not an error.
    pub fn set_pixel(&mut self, x: u16, y: u16, on: bool)
        requires
            old(self).wf(),
        ensures
            final(self).wf(),
            Inky1608::same_config(*old(self), *final(self)),
            final(self).border_colour == old(self).border_colour,
            ({
                let off = old(self).spec_offset(x, y);
                if x < old(self).r_cols && y < old(self).r_rows && off < old(
                    self,
                ).framebuffer@.len() {
                    final(self).framebuffer@ == old(self).framebuffer@.update(off, on)
                } else {
                    final(self).framebuffer@ == old(self).framebuffer@
                }
            }),
    {
        proof {
            assert(self.cols == 136 || self.cols == 104);
            assert(self.rows == 250 || self.rows == 212);
        }
        if x < self.r_cols && y < self.r_rows {
            proof {
                if self.rotation == 90 || self.rotation == -90 {
                    assert((x as int) * (self.cols as int) + (self.cols as int) <= 34000)
                        by (nonlinear_arith)
                        requires
                            (x as int) < (self.rows as int),
                            (self.rows == 250 && self.cols == 136) || (self.rows == 212
                                && self.cols == 104),
                    ;
                } else {
                    assert((y as int) * (self.cols as int) + (x as int) < 34000)
                        by (nonlinear_arith)
                        requires
                            (y as int) < (self.rows as int),
                            (x as int) < (self.cols as int),
                            (self.rows == 250 && self.cols == 136) || (self.rows == 212
                                && self.cols == 104),
                    ;
                }
            }
            let off: usize = if self.rotation == 90 || self.rotation == -90 {
                (x as usize) * (self.cols as usize) + ((self.cols as usize) - (y as usize))
            } else {
                (y as usize) * (self.r_cols as usize) + (x as usize)
            };
            if off < self.framebuffer.len() {
                self.framebuffer[off] = on;
            }
        }
    }

    /// Pixel round trip at the panel level: writing a pixel at in-range
    /// coordinates and packing the planes shows that pixel, inverted, at the
    /// bit position the offset formula documents — bit `7 - (offset % 8)` of
    /// primary-plane byte `offset / 8`. It holds wherever the mapped offset
    /// lands inside the buffer on a fully packed byte.
    pub proof fn lemma_set_pixel_pack_round_trip(self, x: u16, y: u16, on: bool)
        requires
            self.wf(),
            x < self.r_cols,
            y < self.r_rows,
            self.spec_offset(x, y) < self.framebuffer@.len(),
            8 * (self.spec_offset(x, y) / 8) + 8 <= self.framebuffer@.len(),
        ensures
            ({
                let off = self.spec_offset(x, y);
                byte_bit(
                    plane_bytes(self.framebuffer@.update(off, on))[off / 8],
                    (7 - off % 8) as nat,
                ) == !on
            }),
    {
        let off = self.spec_offset(x, y);
        assert(off >= 0) by {
            if self.rotation == 90 || self.rotation == -90 {
                assert((x as int) * (self.cols as int) >= 0) by (nonlinear_arith);
            } else {
                assert((y as int) * (self.r_cols as int) >= 0) by (nonlinear_arith);
            }
        }
        lemma_pixel_round_trip(self.framebuffer@, off, on);
    }

    /// Pack the framebuffer into the two RAM planes: the primary plane holds
    /// eight pixels per byte, most significant bit first, inverted to the
    /// panel's active-low convention; the secondary plane is a same-length
    /// all-zero overlay. The result depends on the framebuffer alone, so
    /// packing twice without a write in between gives identical bytes.
    pub fn pack_planes(&self) -> (r: (Vec<u8>, Vec<u8>))
        ensures
            r.0@ == plane_bytes(self.framebuffer@),
            r.1@.len() == r.0@.len(),
            forall|i: int| 0 <= i < r.1@.len() ==> r.1@[i] == 0u8,
    {
        let len = self.framebuffer.len();
        let n_bytes: usize = len / 8 + (if len % 8 == 0 {
            0
        } else {
            1
        });
        let mut a: Vec<u8> = Vec::new();
        let mut i: usize = 0;
        while i < n_bytes
            invariant
                len == self.framebuffer@.len(),
                n_bytes == plane_len(len as nat),
                i <= n_bytes,
                a@.len() == i,
                forall|k: int| 0 <= k < i ==> a@[k] == plane_byte(self.framebuffer@, k),
            decreases n_bytes - i,
        {
            let start = 8 * i;
            let end = if len - start > 8 {
                start + 8
            } else {
                len
            };
            let mut dest: u8 = 0;
            let mut j = start;
            while j < end
                invariant
                    len == self.framebuffer@.len(),
                    start == 8 * i,
                    start <= j <= end <= len,
                    end - start <= 8,
                    dest as nat == pack_bits(self.framebuffer@.subrange(start as int, j as int)),
                decreases end - j,
            {
                proof {
                    let sub = self.framebuffer@.subrange(start as int, j as int);
                    lemma_pack_bits_bound(sub);
                    lemma_two_pow_mono(sub.len(), 7);
                    assert(two_pow(7) == 128) by {
                        reveal_with_fuel(two_pow, 8);
                    }
                    let sub1 = self.framebuffer@.subrange(start as int, j + 1);
                    assert(sub1.drop_last() =~= sub);
                    assert(sub1.last() == self.framebuffer@[j as int]);
                }
                let bit = self.framebuffer[j];
                dest = if bit {
                    dest * 2 + 1
                } else {
                    dest * 2
                };
                j = j + 1;
            }
            proof {
                let fbv = self.framebuffer@;
                assert(end as int == (if 8 * (i as int) + 8 <= fbv.len() {
                    8 * (i as int) + 8
                } else {
                    fbv.len() as int
                }));
                assert(fbv.subrange(start as int, end as int) == chunk(fbv, i as int));
                let c = chunk(fbv, i as int);
                lemma_pack_bits_bound(c);
                lemma_two_pow_mono(c.len(), 8);
                assert(two_pow(8) == 256) by {
                    reveal_with_fuel(two_pow, 9);
                }
                assert((pack_bits(c) as u8) == dest);
            }
            a.push(dest ^ 0xff);
            i = i + 1;
        }
        proof {
            assert(a@ =~= plane_bytes(self.framebuffer@));
        }
        let mut b: Vec<u8> = Vec::new();
        let mut k: usize = 0;
        while k < n_bytes
            invariant
                k <= n_bytes,
                b@.len() == k,
                forall|m: int| 0 <= m < k ==> b@[m] == 0u8,
            decreases n_bytes - k,
        {
            b.push(0);
            k = k + 1;
        }
        (a, b)
    }

    /// The reset handshake, as a schedule for the transport layer. It must
    /// run before every refresh: the panel loses its configuration once a
    /// refresh is activated.
    pub fn setup(&self) -> (r: Vec<Op>)
        ensures
            ops_view(r@) == spec_setup_ops(),
    {
        let mut v: Vec<Op> = Vec::new();
        v.push(Op::InitPins);
        v.push(Op::SetReset { level: 0 });
        v.push(Op::SleepMicros { micros: 500 });
        v.push(Op::SetReset { level: 1 });
        v.push(Op::SleepMicros { micros: 500 });
        v.push(Op::Command { opcode: SW_RESET });
        v.push(Op::SleepMicros { micros: 1000000 });
        v.push(Op::BusyWait);
        proof {
            assert(ops_view(v@) =~= spec_setup_ops());
        }
        v
    }

    /// One full refresh as a schedule: the reset handshake, the register
    /// configuration in the panel's required order, both RAM planes, an
    /// optional wait for idle, and the activation command.
    #[verifier::rlimit(100)]
    pub fn update(&self, buf_a: Vec<u8>, buf_b: Vec<u8>, busy_wait: bool) -> (r: Vec<Op>)
        requires
            self.wf(),
        ensures
            ops_view(r@) == spec_update_ops(
                self.rows,
                self.cols,
                self.lut@,
                self.border_colour,
                self.colour,
                buf_a@,
                buf_b@,
                busy_wait,
            ),
    {
        proof {
            assert(self.rows == 250 || self.rows == 212);
            assert(self.cols == 136 || self.cols == 104);
        }
        let mut v = self.setup();
        let rows1 = self.rows - 1;
        let lo = (rows1 & 0xff) as u8;
        let hi = (rows1 >> 8) as u8;
        v.push(Op::CommandData { opcode: DRIVER_CONTROL, data: vec3(lo, hi, 0x00) });
        v.push(Op::CommandData { opcode: WRITE_DUMMY, data: vec1(0x1B) });
        v.push(Op::CommandData { opcode: WRITE_GATELINE, data: vec1(0x0B) });
        v.push(Op::CommandData { opcode: DATA_MODE, data: vec1(0x03) });
        v.push(Op::CommandData { opcode: SET_RAMXPOS, data: vec2(0x00, (self.cols / 8 - 1) as u8) });
        v.push(Op::CommandData { opcode: SET_RAMYPOS, data: vec4(0x00, 0x00, lo, hi) });
        v.push(Op::CommandData { opcode: WRITE_VCOM, data: vec1(0x70) });
        v.push(Op::CommandData { opcode: WRITE_LUT, data: lut_vec(&self.lut) });
        match self.border_colour {
            Colour::Black => v.push(Op::CommandData { opcode: WRITE_BORDER, data: vec1(0x00) }),
            Colour::Red => {
                if self.colour == Colour::Red {
                    v.push(Op::CommandData { opcode: WRITE_BORDER, data: vec1(0x06) });
                }
            }
            Colour::Yellow => {
                if self.colour == Colour::Yellow {
                    v.push(Op::CommandData { opcode: WRITE_BORDER, data: vec1(0x0F) });
                }
            }
            Colour::White => v.push(Op::CommandData { opcode: WRITE_BORDER, data: vec1(0x01) }),
            _ => {}
        }
        v.push(Op::CommandData { opcode: SET_RAMXCOUNT, data: vec1(0x00) });
        v.push(Op::CommandData { opcode: SET_RAMYCOUNT, data: vec2(0x00, 0x00) });
        v.push(Op::CommandData { opcode: WRITE_RAM, data: buf_a });
        v.push(Op::CommandData { opcode: WRITE_ALTRAM, data: buf_b });
        if busy_wait {
            v.push(Op::BusyWait);
        }
        v.push(Op::Command { opcode: MASTER_ACTIVATE });
        proof {
            assert(ops_view(v@) =~= spec_update_ops(
                self.rows,
                self.cols,
                self.lut@,
                self.border_colour,
                self.colour,
                buf_a@,
                buf_b@,
                busy_wait,
            ));
        }
        v
    }

    /// Pack the framebuffer and emit the full refresh schedule for it, with
    /// the wait for idle before activation.
    pub fn flush(&self) -> (r: Vec<Op>)
        requires
            self.wf(),
        ensures
            ops_view(r@) == spec_update_ops(
                self.rows,
                self.cols,
                self.lut@,
                self.border_colour,
                self.colour,
                plane_bytes(self.framebuffer@),
                Seq::new(plane_len(self.framebuffer@.len()), |i: int| 0u8),
                true,
            ),
    {
        let (a, b) = self.pack_planes();
        proof {
            assert(b@ =~= Seq::new(plane_len(self.framebuffer@.len()), |i: int| 0u8));
        }
        self.update(a, b, true)
    }

    /// The identity line: geometry, rotation and colour in one string.
    pub fn ident(&self) -> (r: String)
        ensures
            r@ == spec_ident_text(self.rows, self.cols, self.rotation, self.colour),
    {
        let mut s = String::new();
        s.append("Inky is ");
        push_dec_u16(&mut s, self.rows);
        s.append(" rows x ");
        push_dec_u16(&mut s, self.cols);
        s.append(" cols, rotation ");
        push_dec_i16(&mut s, self.rotation);
        s.append(" and colour ");
        match self.colour {
            Colour::Black => s.append("black"),
            Colour::Red => s.append("red"),
            Colour::Yellow => s.append("yellow"),
            _ => s.append("unknown!!"),
        }
        proof {
            assert(s@ =~= spec_ident_text(self.rows, self.cols, self.rotation, self.colour));
        }
        s
    }

    /// Choose the border colour written at the next refresh. The high-temp
    /// mode is not a border choice and leaves the setting as it was.
    pub fn set_border(&mut self, colour: Colour)
        ensures
            final(self).border_colour == (match colour {
                Colour::Black => Colour::Black,
                Colour::White => Colour::White,
                Colour::Red => Colour::Red,
                Colour::Yellow => Colour::Yellow,
                _ => old(self).border_colour,
            }),
            Inky1608::same_config(*old(self), *final(self)),
            final(self).framebuffer == old(self).framebuffer,
    {
        self.border_colour = match colour {
            Colour::Black => Colour::Black,
            Colour::White => Colour::White,
            Colour::Red => Colour::Red,
            Colour::Yellow => Colour::Yellow,
            _ => self.border_colour,
        };
    }
}

} // verus!
