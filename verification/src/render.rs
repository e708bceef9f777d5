//! The rendering pipeline: a pure transformation from a telemetry value and a
//! backlight flag into the 24-cell LED ring buffer and the stepper target.
//!
//! A value is first normalized to an integer fill level over 19 discrete
//! indicator positions, the ring is rotated by a fixed zero offset, and each
//! cell is classified as hue-colored (at or below the fill level), label-zone
//! white, or off. Every color is then scaled by a brightness multiplier chosen
//! from exactly two allowed values: full brightness when the backlight is
//! reported on, half brightness otherwise (halving each channel, rounding
//! down, is exactly the half multiplier followed by truncation).

use vstd::prelude::*;

verus! {

/// Number of LED cells on the indicator ring.
pub const NUM_LEDS: usize = 24;

/// Number of cells at the end of the rotated ring reserved for the fixed
/// white label zone.
pub const NUM_LABEL_LEDS: usize = 5;

/// Fixed rotation so that logical position 0 maps to this physical cell.
pub const LED_ZERO_OFFSET: usize = 9;

/// Number of discrete indicator positions the fill level ranges over.
pub const FILL_RANGE: usize = 19;

/// Largest telemetry value the indicator maps onto the full ring.
pub const DOMAIN_MAX: u32 = 9000;

/// Hue-wheel step between adjacent indicator positions.
pub const WHEEL_HUE_STEP: usize = 12;

/// One color cell of the LED ring: red, green and blue channels, each in
/// 0..=255 by type.
#[derive(Clone, Copy, PartialEq, Eq, Structural, Debug)]
pub struct Rgb {
    pub r: u8,
    pub g: u8,
    pub b: u8,
}

/// The telemetry value normalized to an integer fill level: the value is
/// scaled onto the 19 indicator positions, rounded to the nearest position,
/// and clamped to the indicator range.
pub open spec fn spec_fill_level(value: int) -> int {
    let rounded = (19 * value + 4500) / 9000;
    if rounded > 19 {
        19
    } else {
        rounded
    }
}

/// Compute the fill level for a telemetry value.
pub fn fill_level(value: u32) -> (level: usize)
    ensures
        level as int == spec_fill_level(value as int),
        level <= FILL_RANGE,
{
    let scaled: u64 = 19u64 * (value as u64) + 4500;
    let rounded: u64 = scaled / 9000;
    if rounded > 19 {
        19
    } else {
        rounded as usize
    }
}

/// The hue-wheel input reflected around the midpoint of the 0..=255 range
/// (wrapping modulo 256) before the three-segment decode.
pub open spec fn spec_wheel_reflect(pos: int) -> int {
    if pos <= 128 {
        128 - pos
    } else {
        384 - pos
    }
}

/// The three-segment hue decode: segments of width 85 produce a red-to-green,
/// green-to-blue, blue-to-red transition, wrapping at 85 and 170: red falls
/// while green rises over the first segment, and so on around the cycle.
pub open spec fn spec_wheel_decode(w: int) -> Rgb {
    if w < 85 {
        Rgb { r: (255 - 3 * w) as u8, g: (3 * w) as u8, b: 0 }
    } else if w < 170 {
        Rgb { r: 0, g: (255 - 3 * (w - 85)) as u8, b: (3 * (w - 85)) as u8 }
    } else {
        Rgb { r: (3 * (w - 170)) as u8, g: 0, b: (255 - 3 * (w - 170)) as u8 }
    }
}

/// The cyclic hue function: reflect the input around the midpoint, then run
/// the three-segment decode.
pub open spec fn spec_wheel(pos: int) -> Rgb {
    spec_wheel_decode(spec_wheel_reflect(pos))
}

/// Map a position in 0..=255 to a color on the cyclic hue wheel.
pub fn wheel(pos: u8) -> (c: Rgb)
    ensures
        c == spec_wheel(pos as int),
{
    let w: u16 = if pos <= 128 {
        128 - (pos as u16)
    } else {
        384 - (pos as u16)
    };
    if w < 85 {
        Rgb { r: (255 - 3 * w) as u8, g: (3 * w) as u8, b: 0 }
    } else if w < 170 {
        let t: u16 = w - 85;
        Rgb { r: 0, g: (255 - 3 * t) as u8, b: (3 * t) as u8 }
    } else {
        let t: u16 = w - 170;
        Rgb { r: (3 * t) as u8, g: 0, b: (255 - 3 * t) as u8 }
    }
}

/// A color scaled by the brightness multiplier: unchanged at full brightness
/// (backlight reported on), each channel halved rounding down at half
/// brightness (backlight reported off).
pub open spec fn spec_dim(c: Rgb, backlight_on: bool) -> Rgb {
    if backlight_on {
        c
    } else {
        Rgb { r: ((c.r as int) / 2) as u8, g: ((c.g as int) / 2) as u8, b: ((c.b as int) / 2) as u8 }
    }
}

/// Apply the brightness multiplier selected by the backlight flag.
pub fn dim_color(c: Rgb, backlight_on: bool) -> (r: Rgb)
    ensures
        r == spec_dim(c, backlight_on),
{
    if backlight_on {
        c
    } else {
        Rgb { r: c.r / 2, g: c.g / 2, b: c.b / 2 }
    }
}

/// The color of physical cell `i` for a given telemetry value and backlight
/// flag: the cell's rotated offset decides whether it is hue-colored (at or
/// below the fill level), label-zone white, or off.
pub open spec fn spec_cell(value: int, backlight_on: bool, i: int) -> Rgb {
    let offset = (i + LED_ZERO_OFFSET as int) % (NUM_LEDS as int);
    if offset <= spec_fill_level(value) {
        spec_dim(spec_wheel((offset * WHEEL_HUE_STEP as int) % 256), backlight_on)
    } else if offset >= NUM_LEDS as int - NUM_LABEL_LEDS as int {
        spec_dim(Rgb { r: 255, g: 255, b: 255 }, backlight_on)
    } else {
        Rgb { r: 0, g: 0, b: 0 }
    }
}

/// The whole LED ring buffer for a given telemetry value and backlight flag.
pub open spec fn spec_render(value: int, backlight_on: bool) -> Seq<Rgb> {
    Seq::new(NUM_LEDS as nat, |i: int| spec_cell(value, backlight_on, i))
}

/// The gauge task's working render state: the LED ring buffer and the last
/// computed stepper target.
pub struct ActuatorFrame {
    pub cells: Vec<Rgb>,
    pub stepper_target: u32,
}

impl ActuatorFrame {
    /// The frame always holds exactly one color per LED cell.
    pub open spec fn wf(&self) -> bool {
        self.cells@.len() == NUM_LEDS
    }

    /// A fresh frame: every cell off, stepper target zero.
    pub fn new() -> (f: ActuatorFrame)
        ensures
            f.wf(),
            forall|i: int| 0 <= i < NUM_LEDS ==> f.cells@[i] == (Rgb { r: 0, g: 0, b: 0 }),
            f.stepper_target == 0,
    {
        let mut cells: Vec<Rgb> = Vec::new();
        let mut i: usize = 0;
        while i < NUM_LEDS
            invariant
                i <= NUM_LEDS,
                cells@.len() == i,
                forall|k: int| 0 <= k < i ==> cells@[k] == (Rgb { r: 0, g: 0, b: 0 }),
            decreases NUM_LEDS - i,
        {
            cells.push(Rgb { r: 0, g: 0, b: 0 });
            i = i + 1;
        }
        ActuatorFrame { cells, stepper_target: 0 }
    }
}

/// Recompute the frame in place for a new telemetry value: every cell takes
/// the color the pipeline assigns it, and the stepper target becomes the
/// value itself (the actuator does its own step-count mapping).
pub fn render_frame(frame: &mut ActuatorFrame, value: u32, backlight_on: bool)
    requires
        old(frame).wf(),
    ensures
        final(frame).wf(),
        final(frame).cells@ == spec_render(value as int, backlight_on),
        final(frame).cells@.len() == NUM_LEDS,
        final(frame).stepper_target == value,
{
    let level: usize = fill_level(value);
    let mut i: usize = 0;
    while i < NUM_LEDS
        invariant
            i <= NUM_LEDS,
            frame.cells@.len() == NUM_LEDS,
            level as int == spec_fill_level(value as int),
            level <= FILL_RANGE,
            forall|k: int| 0 <= k < i ==> frame.cells@[k] == spec_cell(
                value as int,
                backlight_on,
                k,
            ),
        decreases NUM_LEDS - i,
    {
        let offset: usize = (i + LED_ZERO_OFFSET) % NUM_LEDS;
        let color: Rgb = if offset <= level {
            let hue: u8 = ((offset * WHEEL_HUE_STEP) % 256) as u8;
            dim_color(wheel(hue), backlight_on)
        } else if offset >= NUM_LEDS - NUM_LABEL_LEDS {
            dim_color(Rgb { r: 255, g: 255, b: 255 }, backlight_on)
        } else {
            Rgb { r: 0, g: 0, b: 0 }
        };
        frame.cells[i] = color;
        i = i + 1;
    }
    frame.stepper_target = value;
    assert(frame.cells@ =~= spec_render(value as int, backlight_on));
}

/// The pipeline is a pure function of the telemetry value and the backlight
/// flag: two renderings from identical inputs are identical cell for cell,
/// whatever frames they were written into.
pub proof fn lemma_render_idempotent(
    value: int,
    backlight_on: bool,
    f1: Seq<Rgb>,
    f2: Seq<Rgb>,
)
    requires
        f1 == spec_render(value, backlight_on),
        f2 == spec_render(value, backlight_on),
    ensures
        f1 == f2,
{
}

/// Boundary behavior of the fill level: value zero gives level zero, any
/// value at or above the domain maximum gives the top level, and the level
/// never exceeds the indicator range (which itself is below the cell count).
pub proof fn lemma_fill_level_boundaries(value: int)
    requires
        value >= 0,
    ensures
        value == 0 ==> spec_fill_level(value) == 0,
        value >= DOMAIN_MAX as int ==> spec_fill_level(value) == FILL_RANGE as int,
        0 <= spec_fill_level(value) <= FILL_RANGE as int,
        spec_fill_level(value) < NUM_LEDS as int,
{
    vstd::arithmetic::div_mod::lemma_div_pos_is_pos(19 * value + 4500, 9000);
    if value >= DOMAIN_MAX as int {
        assert(19 * value + 4500 >= 175500);
        vstd::arithmetic::div_mod::lemma_div_is_ordered(175500, 19 * value + 4500, 9000);
        assert(175500int / 9000 == 19);
    }
}

/// The hue wheel lands exactly on a segment boundary at decode inputs 0, 85
/// and 170: each boundary color has one channel at 255 and the others at 0.
/// Equivalently, the pre-reflection wheel input 128 maps to the red/green
/// boundary.
pub proof fn lemma_wheel_segment_boundaries()
    ensures
        spec_wheel_decode(0) == (Rgb { r: 255, g: 0, b: 0 }),
        spec_wheel_decode(85) == (Rgb { r: 0, g: 255, b: 0 }),
        spec_wheel_decode(170) == (Rgb { r: 0, g: 0, b: 255 }),
        spec_wheel(128) == (Rgb { r: 255, g: 0, b: 0 }),
{
}

} // verus!
