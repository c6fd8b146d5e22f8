use vstd::prelude::*;

verus! {

/// Width of the screen in pixels.
pub const SCREEN_WIDTH: usize = 240;
/// Height of the screen in pixels.
pub const SCREEN_HEIGHT: usize = 160;

/// An 8-bit intensity approximated as a 5-bit one.
pub open spec fn to5(byte: u8) -> u16 {
    (byte as int * 31 / 255) as u16
}

/// A 5-bit intensity widened to 8 bits.
pub open spec fn to8(v: u16) -> u32 {
    (v as int * 255 / 31) as u32
}

fn bits8_to_5(byte: u8) -> (r: u16)
    ensures
        r == to5(byte),
        r <= 31,
{
    (byte as u16 * 31) / 255
}

fn bits5_to_8(v: u16) -> (r: u32)
    requires
        v <= 31,
    ensures
        r == to8(v),
        r <= 255,
{
    (v as u32 * 255) / 31
}

/// A BGR555 colour: red in bits 4..0, green in 9..5, blue in 14..10.
#[derive(Clone, Copy, Debug, PartialEq, Eq, Structural)]
pub struct BGR555(pub u16);

/// An RGB colour packed as 0xRRGGBB.
#[derive(Clone, Copy, Debug, PartialEq, Eq, Structural)]
pub struct RGBA(pub u32);

/// Packs three 5-bit intensities.
pub open spec fn pack555(r: u16, g: u16, b: u16) -> u16 {
    (r + 32 * g + 1024 * b) as u16
}

fn pack_555(r: u16, g: u16, b: u16) -> (v: u16)
    requires
        r <= 31,
        g <= 31,
        b <= 31,
    ensures
        v == pack555(r, g, b),
{
    r + 32 * g + 1024 * b
}

impl From<[u8; 3]> for BGR555 {
    /// From red, green and blue bytes, each scaled to 5 bits.
    fn from(bytes: [u8; 3]) -> (r: BGR555)
        ensures
            r == BGR555(pack555(to5(bytes[0]), to5(bytes[1]), to5(bytes[2]))),
    {
        BGR555(pack_555(bits8_to_5(bytes[0]), bits8_to_5(bytes[1]), bits8_to_5(bytes[2])))
    }
}

impl vstd::std_specs::convert::FromSpecImpl<[u8; 3]> for BGR555 {
    open spec fn obeys_from_spec() -> bool {
        true
    }

    open spec fn from_spec(bytes: [u8; 3]) -> BGR555 {
        BGR555(pack555(to5(bytes[0]), to5(bytes[1]), to5(bytes[2])))
    }
}

impl From<[u8; 2]> for BGR555 {
    /// From the two bytes of the colour, low byte first.
    fn from(bytes: [u8; 2]) -> (r: BGR555)
        ensures
            r == BGR555((bytes[0] as int + 256 * bytes[1] as int) as u16),
    {
        BGR555(bytes[0] as u16 + 256 * bytes[1] as u16)
    }
}

impl vstd::std_specs::convert::FromSpecImpl<[u8; 2]> for BGR555 {
    open spec fn obeys_from_spec() -> bool {
        true
    }

    open spec fn from_spec(bytes: [u8; 2]) -> BGR555 {
        BGR555((bytes[0] as int + 256 * bytes[1] as int) as u16)
    }
}

/// Red, green and blue bytes of a packed 0xRRGGBB colour.
pub open spec fn rgb_channels(c: u32) -> (u8, u8, u8) {
    ((c / 0x1_0000 % 256) as u8, (c / 0x100 % 256) as u8, (c % 256) as u8)
}

impl From<u32> for BGR555 {
    /// From a packed 0xRRGGBB colour.
    fn from(rgba: u32) -> (r: BGR555)
        ensures
            r == BGR555(
                pack555(to5(rgb_channels(rgba).0), to5(rgb_channels(rgba).1), to5(rgb_channels(rgba).2)),
            ),
    {
        let (red, green, blue) = channels_of(rgba);
        BGR555(pack_555(bits8_to_5(red), bits8_to_5(green), bits8_to_5(blue)))
    }
}

impl vstd::std_specs::convert::FromSpecImpl<u32> for BGR555 {
    open spec fn obeys_from_spec() -> bool {
        true
    }

    open spec fn from_spec(rgba: u32) -> BGR555 {
        BGR555(pack555(to5(rgb_channels(rgba).0), to5(rgb_channels(rgba).1), to5(rgb_channels(rgba).2)))
    }
}

fn channels_of(c: u32) -> (r: (u8, u8, u8))
    ensures
        r == rgb_channels(c),
{
    ((c / 0x1_0000 % 256) as u8, (c / 0x100 % 256) as u8, (c % 256) as u8)
}

impl From<RGBA> for BGR555 {
    /// From an RGB colour.
    fn from(rgba: RGBA) -> (r: BGR555)
        ensures
            r == BGR555(
                pack555(to5(rgb_channels(rgba.0).0), to5(rgb_channels(rgba.0).1), to5(rgb_channels(rgba.0).2)),
            ),
    {
        let (red, green, blue) = channels_of(rgba.0);
        BGR555(pack_555(bits8_to_5(red), bits8_to_5(green), bits8_to_5(blue)))
    }
}

impl vstd::std_specs::convert::FromSpecImpl<RGBA> for BGR555 {
    open spec fn obeys_from_spec() -> bool {
        true
    }

    open spec fn from_spec(rgba: RGBA) -> BGR555 {
        BGR555(pack555(to5(rgb_channels(rgba.0).0), to5(rgb_channels(rgba.0).1), to5(rgb_channels(rgba.0).2)))
    }
}

/// RGB colour of a BGR555 colour: each 5-bit intensity widened to 8 bits.
pub open spec fn rgb_of(c: u16) -> u32 {
    (0x1_0000 * to8((c % 32) as u16) + 0x100 * to8((c / 32 % 32) as u16) + to8((c / 1024 % 32) as u16)) as u32
}

impl From<BGR555> for RGBA {
    fn from(bgr: BGR555) -> (r: RGBA)
        ensures
            r == RGBA(rgb_of(bgr.0)),
    {
        let red = bits5_to_8(bgr.0 % 32);
        let green = bits5_to_8(bgr.0 / 32 % 32);
        let blue = bits5_to_8(bgr.0 / 1024 % 32);
        RGBA(0x1_0000 * red + 0x100 * green + blue)
    }
}

impl vstd::std_specs::convert::FromSpecImpl<BGR555> for RGBA {
    open spec fn obeys_from_spec() -> bool {
        true
    }

    open spec fn from_spec(bgr: BGR555) -> RGBA {
        RGBA(rgb_of(bgr.0))
    }
}

impl RGBA {
    /// Red, green and blue bytes.
    pub fn channels(&self) -> (r: (u8, u8, u8))
        ensures
            r == rgb_channels(self.0),
    {
        channels_of(self.0)
    }
}

/// Maps scancodes to keys.
#[derive(Clone, Copy, Debug, PartialEq, Eq, Structural)]
pub struct Keymap {
    pub a: u8,
    pub b: u8,
    pub select: u8,
    pub start: u8,
    pub right: u8,
    pub left: u8,
    pub up: u8,
    pub down: u8,
    pub r: u8,
    pub l: u8,
    pub exit: u8,
}

/// Pressed state of each key.
#[derive(Clone, Copy, Debug, PartialEq, Eq, Structural)]
pub struct InputStates {
    pub a: bool,
    pub b: bool,
    pub select: bool,
    pub start: bool,
    pub right: bool,
    pub left: bool,
    pub up: bool,
    pub down: bool,
    pub r: bool,
    pub l: bool,
    pub exit: bool,
}

impl Keymap {
    /// The default scancodes.
    pub fn new() -> (r: Keymap)
        ensures
            r == (Keymap {
                a: 44,
                b: 45,
                select: 57,
                start: 28,
                right: 106,
                left: 105,
                up: 103,
                down: 108,
                r: 82,
                l: 97,
                exit: 1,
            }),
    {
        Keymap {
            a: 44,
            b: 45,
            select: 57,
            start: 28,
            right: 106,
            left: 105,
            up: 103,
            down: 108,
            r: 82,
            l: 97,
            exit: 1,
        }
    }

    /// Input states after `key` is pressed: the first key bound to it (exit
    /// first, then a, b, select, start, right, left, up, down, r, l) is set.
    pub open spec fn pressed(&self, key: u8, s: InputStates) -> InputStates {
        if key == self.exit {
            InputStates { exit: true, ..s }
        } else if key == self.a {
            InputStates { a: true, ..s }
        } else if key == self.b {
            InputStates { b: true, ..s }
        } else if key == self.select {
            InputStates { select: true, ..s }
        } else if key == self.start {
            InputStates { start: true, ..s }
        } else if key == self.right {
            InputStates { right: true, ..s }
        } else if key == self.left {
            InputStates { left: true, ..s }
        } else if key == self.up {
            InputStates { up: true, ..s }
        } else if key == self.down {
            InputStates { down: true, ..s }
        } else if key == self.r {
            InputStates { r: true, ..s }
        } else if key == self.l {
            InputStates { l: true, ..s }
        } else {
            s
        }
    }

    /// Marks the key bound to scancode `key` as pressed.
    #[verifier::rlimit(40)]
    pub fn match_key(&self, key: u8, states: &mut InputStates)
        ensures
            *final(states) == self.pressed(key, *old(states)),
    {
        if key == self.exit {
            states.exit = true;
        } else if key == self.a {
            states.a = true;
        } else if key == self.b {
            states.b = true;
        } else if key == self.select {
            states.select = true;
        } else if key == self.start {
            states.start = true;
        } else if key == self.right {
            states.right = true;
        } else if key == self.left {
            states.left = true;
        } else if key == self.up {
            states.up = true;
        } else if key == self.down {
            states.down = true;
        } else if key == self.r {
            states.r = true;
        } else if key == self.l {
            states.l = true;
        }
    }
}

/// Bit `n` of the key register.
pub open spec fn key_bit(raw: u16, n: u16) -> bool {
    (raw >> n) & 1 == 1
}

pub open spec fn bit_val(b: bool, weight: u16) -> u16 {
    if b {
        weight
    } else {
        0
    }
}

impl InputStates {
    /// No key pressed.
    pub fn new() -> (r: InputStates)
        ensures
            r == InputStates::from_bits(0),
    {
        let r = InputStates {
            a: false,
            b: false,
            select: false,
            start: false,
            right: false,
            left: false,
            up: false,
            down: false,
            r: false,
            l: false,
            exit: false,
        };
        proof {
            assert(forall|n: u16| n < 16 ==> #[trigger] key_bit(0, n) == false) by (bit_vector);
        }
        r
    }

    /// Key states named by bits 0..9 of a key register (exit is never set).
    pub open spec fn from_bits(raw: u16) -> InputStates {
        InputStates {
            a: key_bit(raw, 0),
            b: key_bit(raw, 1),
            select: key_bit(raw, 2),
            start: key_bit(raw, 3),
            right: key_bit(raw, 4),
            left: key_bit(raw, 5),
            up: key_bit(raw, 6),
            down: key_bit(raw, 7),
            r: key_bit(raw, 8),
            l: key_bit(raw, 9),
            exit: false,
        }
    }

    /// The key register these states describe: bit `i` for the `i`th key.
    pub open spec fn bits(&self) -> u16 {
        (bit_val(self.a, 1) + bit_val(self.b, 2) + bit_val(self.select, 4) + bit_val(self.start, 8)
            + bit_val(self.right, 16) + bit_val(self.left, 32) + bit_val(self.up, 64) + bit_val(
            self.down,
            128,
        ) + bit_val(self.r, 256) + bit_val(self.l, 512)) as u16
    }

    /// Reads the key states from a key register.
    pub fn from_u16(raw: u16) -> (r: InputStates)
        ensures
            r == InputStates::from_bits(raw),
    {
        InputStates {
            a: (raw >> 0u16) & 1 == 1,
            b: (raw >> 1u16) & 1 == 1,
            select: (raw >> 2u16) & 1 == 1,
            start: (raw >> 3u16) & 1 == 1,
            right: (raw >> 4u16) & 1 == 1,
            left: (raw >> 5u16) & 1 == 1,
            up: (raw >> 6u16) & 1 == 1,
            down: (raw >> 7u16) & 1 == 1,
            r: (raw >> 8u16) & 1 == 1,
            l: (raw >> 9u16) & 1 == 1,
            exit: false,
        }
    }

    /// Writes the key states out as a key register.
    pub fn to_u16(&self) -> (r: u16)
        ensures
            r == self.bits(),
    {
        weight(self.a, 1) + weight(self.b, 2) + weight(self.select, 4) + weight(self.start, 8)
            + weight(self.right, 16) + weight(self.left, 32) + weight(self.up, 64) + weight(
            self.down,
            128,
        ) + weight(self.r, 256) + weight(self.l, 512)
    }
}

fn weight(b: bool, w: u16) -> (r: u16)
    ensures
        r == bit_val(b, w),
        r <= w,
{
    if b {
        w
    } else {
        0
    }
}

/// Key register round trip: reading states from the register that some
/// states write gives those states back, but for the exit key.
pub proof fn lemma_key_register_round_trip(s: InputStates)
    ensures
        InputStates::from_bits(s.bits()) == (InputStates { exit: false, ..s }),
{
    let (a, b, c, d, e, f, g, h, i, j) = (
        bit_val(s.a, 1),
        bit_val(s.b, 2),
        bit_val(s.select, 4),
        bit_val(s.start, 8),
        bit_val(s.right, 16),
        bit_val(s.left, 32),
        bit_val(s.up, 64),
        bit_val(s.down, 128),
        bit_val(s.r, 256),
        bit_val(s.l, 512),
    );
    let w = s.bits();
    assert(w == a + b + c + d + e + f + g + h + i + j);
    assert(key_bit(w, 0) == (a != 0) && key_bit(w, 1) == (b != 0) && key_bit(w, 2) == (c != 0)
        && key_bit(w, 3) == (d != 0) && key_bit(w, 4) == (e != 0) && key_bit(w, 5) == (f != 0)
        && key_bit(w, 6) == (g != 0) && key_bit(w, 7) == (h != 0) && key_bit(w, 8) == (i != 0)
        && key_bit(w, 9) == (j != 0)) by (bit_vector)
        requires
            w == a + b + c + d + e + f + g + h + i + j,
            a == 0 || a == 1,
            b == 0 || b == 2,
            c == 0 || c == 4,
            d == 0 || d == 8,
            e == 0 || e == 16,
            f == 0 || f == 32,
            g == 0 || g == 64,
            h == 0 || h == 128,
            i == 0 || i == 256,
            j == 0 || j == 512,
    ;
}

/// Interrupt requests raised by the display.
#[derive(Clone, Copy, Debug, PartialEq, Eq, Structural)]
pub struct Interrupt {
    pub vblank: bool,
    pub vcounter: bool,
    pub hblank: bool,
}

impl Interrupt {
    /// No interrupt raised.
    pub fn none() -> (r: Interrupt)
        ensures
            r == (Interrupt { vblank: false, vcounter: false, hblank: false }),
    {
        Interrupt { vblank: false, vcounter: false, hblank: false }
    }

    pub fn vblank(&mut self)
        ensures
            *final(self) == (Interrupt { vblank: true, ..*old(self) }),
    {
        self.vblank = true;
    }

    pub fn vcounter(&mut self)
        ensures
            *final(self) == (Interrupt { vcounter: true, ..*old(self) }),
    {
        self.vcounter = true;
    }

    pub fn hblank(&mut self)
        ensures
            *final(self) == (Interrupt { hblank: true, ..*old(self) }),
    {
        self.hblank = true;
    }
}

/// Run state reported to the driver.
#[derive(Clone, Copy, Debug, PartialEq, Eq, Structural)]
pub enum State {
    Exited,
    Running,
    Blanking,
}

} // verus!
