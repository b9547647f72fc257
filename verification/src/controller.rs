//! Controller input: buttons, analogue sticks and per-button pressure.
//!
//! A [`ControllerInput`] is built from a [`RawCtrlData`] sample, the plain
//! values of the system's controller report. Button queries are single mask
//! operations on the reported bit set; stick readings are normalised to exact
//! fractions in `[-128/127, 1]`, with `0` at the resting position.

use vstd::prelude::*;
use vstd::std_specs::convert::FromSpecImpl;
use vstd::std_specs::convert::IntoSpec;
use vstd::std_specs::ops::BitOrSpecImpl;

use core::ops::BitOr;

use crate::ratio::Ratio;

verus! {

// ── Button ────────────────────────────────────────────────────────────────

/// Digital button on the Vita.
///
/// Each button stands for one bit of the hardware's button register; see
/// [`Button::bits`]. Buttons combine with `|` into a `u32` mask:
/// `Button::Cross | Button::Circle`.
///
/// Note that `button as u32` is the variant's position in this list, not its
/// register bit: use [`Button::bits`] for the bit.
#[derive(Clone, Copy, Debug, PartialEq, Eq, Hash, Structural)]
pub enum Button {
    Select,
    L3,
    R3,
    Start,
    Up,
    Right,
    Down,
    Left,
    /// Left trigger (L2 on extended modes).
    LTrigger,
    /// Right trigger (R2 on extended modes).
    RTrigger,
    /// Only available via `*Ext2` functions.
    L1,
    /// Only available via `*Ext2` functions.
    R1,
    Triangle,
    Circle,
    Cross,
    Square,
    /// Input intercepted by another application (Home button).
    Intercepted,
    Headphone,
    VolUp,
    VolDown,
    Power,
}

impl Button {
    /// The bit of the button register (`SceCtrlButtons`) that this button sets.
    pub open spec fn mask(self) -> u32 {
        match self {
            Button::Select => 0x0000_0001,
            Button::L3 => 0x0000_0002,
            Button::R3 => 0x0000_0004,
            Button::Start => 0x0000_0008,
            Button::Up => 0x0000_0010,
            Button::Right => 0x0000_0020,
            Button::Down => 0x0000_0040,
            Button::Left => 0x0000_0080,
            Button::LTrigger => 0x0000_0100,
            Button::RTrigger => 0x0000_0200,
            Button::L1 => 0x0000_0400,
            Button::R1 => 0x0000_0800,
            Button::Triangle => 0x0000_1000,
            Button::Circle => 0x0000_2000,
            Button::Cross => 0x0000_4000,
            Button::Square => 0x0000_8000,
            Button::Intercepted => 0x0001_0000,
            Button::Headphone => 0x0008_0000,
            Button::VolUp => 0x0010_0000,
            Button::VolDown => 0x0020_0000,
            Button::Power => 0x4000_0000,
        }
    }

    /// Raw bit-mask value matching `SceCtrlButtons`.
    pub fn bits(self) -> (r: u32)
        ensures
            r == self.mask(),
    {
        match self {
            Button::Select => 0x0000_0001,
            Button::L3 => 0x0000_0002,
            Button::R3 => 0x0000_0004,
            Button::Start => 0x0000_0008,
            Button::Up => 0x0000_0010,
            Button::Right => 0x0000_0020,
            Button::Down => 0x0000_0040,
            Button::Left => 0x0000_0080,
            Button::LTrigger => 0x0000_0100,
            Button::RTrigger => 0x0000_0200,
            Button::L1 => 0x0000_0400,
            Button::R1 => 0x0000_0800,
            Button::Triangle => 0x0000_1000,
            Button::Circle => 0x0000_2000,
            Button::Cross => 0x0000_4000,
            Button::Square => 0x0000_8000,
            Button::Intercepted => 0x0001_0000,
            Button::Headphone => 0x0008_0000,
            Button::VolUp => 0x0010_0000,
            Button::VolDown => 0x0020_0000,
            Button::Power => 0x4000_0000,
        }
    }
}


impl Button {
    /// The button's name, as it is written out.
    pub open spec fn name(self) -> Seq<char> {
        match self {
            Button::Select => "Select"@,
            Button::L3 => "L3"@,
            Button::R3 => "R3"@,
            Button::Start => "Start"@,
            Button::Up => "Up"@,
            Button::Right => "Right"@,
            Button::Down => "Down"@,
            Button::Left => "Left"@,
            Button::LTrigger => "LTrigger"@,
            Button::RTrigger => "RTrigger"@,
            Button::L1 => "L1"@,
            Button::R1 => "R1"@,
            Button::Triangle => "Triangle"@,
            Button::Circle => "Circle"@,
            Button::Cross => "Cross"@,
            Button::Square => "Square"@,
            Button::Intercepted => "Intercepted"@,
            Button::Headphone => "Headphone"@,
            Button::VolUp => "VolUp"@,
            Button::VolDown => "VolDown"@,
            Button::Power => "Power"@,
        }
    }

    /// The button's name (`"Cross"` for [`Button::Cross`]).
    pub fn to_string(&self) -> (s: String)
        ensures
            s@ == self.name(),
    {
        let name = match self {
            Button::Select => "Select",
            Button::L3 => "L3",
            Button::R3 => "R3",
            Button::Start => "Start",
            Button::Up => "Up",
            Button::Right => "Right",
            Button::Down => "Down",
            Button::Left => "Left",
            Button::LTrigger => "LTrigger",
            Button::RTrigger => "RTrigger",
            Button::L1 => "L1",
            Button::R1 => "R1",
            Button::Triangle => "Triangle",
            Button::Circle => "Circle",
            Button::Cross => "Cross",
            Button::Square => "Square",
            Button::Intercepted => "Intercepted",
            Button::Headphone => "Headphone",
            Button::VolUp => "VolUp",
            Button::VolDown => "VolDown",
            Button::Power => "Power",
        };
        String::from_str(name)
    }
}

/// `Button::Cross | Button::Circle`: the mask of both buttons.
impl BitOr for Button {
    type Output = u32;

    fn bitor(self, rhs: Button) -> (r: u32) {
        self.bits() | rhs.bits()
    }
}

impl BitOrSpecImpl for Button {
    open spec fn obeys_bitor_spec() -> bool {
        true
    }

    open spec fn bitor_req(self, rhs: Button) -> bool {
        true
    }

    open spec fn bitor_spec(self, rhs: Button) -> u32 {
        self.mask() | rhs.mask()
    }
}

/// `mask | Button::Square`: a mask with one more button.
impl BitOr<Button> for u32 {
    type Output = u32;

    fn bitor(self, rhs: Button) -> (r: u32) {
        self | rhs.bits()
    }
}

impl BitOrSpecImpl<Button> for u32 {
    open spec fn obeys_bitor_spec() -> bool {
        true
    }

    open spec fn bitor_req(self, rhs: Button) -> bool {
        true
    }

    open spec fn bitor_spec(self, rhs: Button) -> u32 {
        self | rhs.mask()
    }
}

/// `Button::Cross | mask`: a mask with one more button.
impl BitOr<u32> for Button {
    type Output = u32;

    fn bitor(self, rhs: u32) -> (r: u32) {
        self.bits() | rhs
    }
}

impl BitOrSpecImpl<u32> for Button {
    open spec fn obeys_bitor_spec() -> bool {
        true
    }

    open spec fn bitor_req(self, rhs: u32) -> bool {
        true
    }

    open spec fn bitor_spec(self, rhs: u32) -> u32 {
        self.mask() | rhs
    }
}

// ── Joystick / Axis ───────────────────────────────────────────────────────

/// Which analogue stick.
#[derive(Clone, Copy, Debug, PartialEq, Eq, Hash, Structural)]
pub enum Joystick {
    Left,
    Right,
}

impl Joystick {
    pub open spec fn name(self) -> Seq<char> {
        match self {
            Joystick::Left => "Left"@,
            Joystick::Right => "Right"@,
        }
    }

    /// The stick's name (`"Left"` or `"Right"`).
    pub fn to_string(&self) -> (s: String)
        ensures
            s@ == self.name(),
    {
        match self {
            Joystick::Left => String::from_str("Left"),
            Joystick::Right => String::from_str("Right"),
        }
    }
}

/// Axis of an analogue stick.
#[derive(Clone, Copy, Debug, PartialEq, Eq, Hash, Structural)]
pub enum Axis {
    X,
    Y,
}

impl Axis {
    pub open spec fn name(self) -> Seq<char> {
        match self {
            Axis::X => "X"@,
            Axis::Y => "Y"@,
        }
    }

    /// The axis' name (`"X"` or `"Y"`).
    pub fn to_string(&self) -> (s: String)
        ensures
            s@ == self.name(),
    {
        match self {
            Axis::X => String::from_str("X"),
            Axis::Y => String::from_str("Y"),
        }
    }
}

/// Normalised joystick data for one stick.
///
/// Each axis is the exact fraction `(raw - 128) / 127` of the raw reading:
/// `0` is the centre position, `1` full deflection towards the maximum and
/// `-128/127` full deflection towards the minimum.
#[derive(Clone, Copy, Debug, PartialEq, Eq, Hash, Structural)]
pub struct JoystickData {
    pub x: Ratio,
    pub y: Ratio,
}

impl JoystickData {
    pub open spec fn axis_spec(self, axis: Axis) -> Ratio {
        match axis {
            Axis::X => self.x,
            Axis::Y => self.y,
        }
    }

    /// Return the value of a single axis.
    pub fn axis(self, axis: Axis) -> (r: Ratio)
        ensures
            r == self.axis_spec(axis),
    {
        match axis {
            Axis::X => self.x,
            Axis::Y => self.y,
        }
    }
}

// ── Normalisation ─────────────────────────────────────────────────────────

/// Where a stick rests.
pub const AXIS_CENTER: i32 = 128;

/// Deflection of a raw reading that counts as one.
pub const AXIS_SCALE: i32 = 127;

/// The normalised value of a raw axis reading.
pub open spec fn normalise_axis_spec(raw: u8) -> Ratio {
    Ratio { num: (raw - AXIS_CENTER) as i32, den: AXIS_SCALE }
}

/// Map a raw `u8` axis value (0-255) to `(raw - 128) / 127`.
///
/// The Vita's analogue sticks rest at 128.  Values below 128 are negative,
/// values above are positive; 255 gives exactly 1.
pub fn normalise_axis(raw: u8) -> (r: Ratio)
    ensures
        r == normalise_axis_spec(raw),
        r.wf(),
        -128 <= r.num <= 127,
        r.num == raw - 128,
        r.den == 127,
{
    Ratio { num: raw as i32 - AXIS_CENTER, den: AXIS_SCALE }
}

// ── Digital button pressure ───────────────────────────────────────────────

/// Per-button analogue pressure reading (0-255).
///
/// These are the individual `uint8_t` fields of the controller report; they
/// say how far a digital button is pressed rather than a simple on/off state.
#[derive(Clone, Copy, Debug, PartialEq, Eq, Hash, Structural)]
pub struct DigitalPressure {
    pub up: u8,
    pub right: u8,
    pub down: u8,
    pub left: u8,
    pub l_trigger: u8,
    pub r_trigger: u8,
    pub l1: u8,
    pub r1: u8,
    pub triangle: u8,
    pub circle: u8,
    pub cross: u8,
    pub square: u8,
}

// ── Sampling mode ─────────────────────────────────────────────────────────

/// Controller sampling mode.
///
/// Maps directly to `SceCtrlPadInputMode`; the variants are declared in the
/// order of their numbers, so `mode as i32` is that number.
#[derive(Clone, Copy, Debug, PartialEq, Eq, Hash, Structural)]
pub enum SamplingMode {
    /// Digital buttons only — analogue sticks return 0.
    Digital,
    /// Digital buttons + analogue sticks (0-255 range).
    Analog,
    /// Same as Analog but with a wider range for the sticks.
    AnalogWide,
}

impl SamplingMode {
    /// The `SceCtrlPadInputMode` value of the mode.
    pub open spec fn raw(self) -> u32 {
        match self {
            SamplingMode::Digital => 0,
            SamplingMode::Analog => 1,
            SamplingMode::AnalogWide => 2,
        }
    }

    /// The `SceCtrlPadInputMode` value to hand to the system for this mode.
    pub fn to_raw(self) -> (r: u32)
        ensures
            r == self.raw(),
    {
        match self {
            SamplingMode::Digital => 0,
            SamplingMode::Analog => 1,
            SamplingMode::AnalogWide => 2,
        }
    }
}


// ── Raw sample ────────────────────────────────────────────────────────────

/// The values of one controller report (`SceCtrlData`) that the library reads.
#[derive(Clone, Copy, Debug, PartialEq, Eq, Hash, Structural)]
pub struct RawCtrlData {
    /// Hardware timestamp (microseconds).
    pub timestamp: u64,
    /// Button bit-mask.
    pub buttons: u32,
    pub lx: u8,
    pub ly: u8,
    pub rx: u8,
    pub ry: u8,
    pub up: u8,
    pub right: u8,
    pub down: u8,
    pub left: u8,
    pub lt: u8,
    pub rt: u8,
    pub l1: u8,
    pub r1: u8,
    pub triangle: u8,
    pub circle: u8,
    pub cross: u8,
    pub square: u8,
}

// ── Mask predicates ───────────────────────────────────────────────────────

/// Some bit of `mask` is set in `state`.
pub open spec fn any_set(state: u32, mask: u32) -> bool {
    state & mask != 0
}

/// Every bit of `mask` is set in `state`.
pub open spec fn all_set(state: u32, mask: u32) -> bool {
    state & mask == mask
}

/// No bit of `mask` is set in `state`.
pub open spec fn none_set(state: u32, mask: u32) -> bool {
    state & mask == 0
}

// ── ControllerInput ───────────────────────────────────────────────────────

/// A snapshot of the Vita's controller state.
#[derive(Clone, Copy, Debug, PartialEq, Eq, Hash, Structural)]
pub struct ControllerInput {
    /// Raw button bit-mask (see [`Button`]).
    pub buttons: u32,
    /// Normalised left stick.
    pub left_stick: JoystickData,
    /// Normalised right stick.
    pub right_stick: JoystickData,
    /// Per-button analogue pressure.
    pub pressure: DigitalPressure,
    /// Hardware timestamp (microseconds).
    pub timestamp: u64,
}

impl ControllerInput {
    /// The snapshot that a raw controller report stands for.
    pub open spec fn from_raw_spec(raw: RawCtrlData) -> ControllerInput {
        ControllerInput {
            buttons: raw.buttons,
            left_stick: JoystickData { x: normalise_axis_spec(raw.lx), y: normalise_axis_spec(raw.ly) },
            right_stick: JoystickData { x: normalise_axis_spec(raw.rx), y: normalise_axis_spec(raw.ry) },
            pressure: DigitalPressure {
                up: raw.up,
                right: raw.right,
                down: raw.down,
                left: raw.left,
                l_trigger: raw.lt,
                r_trigger: raw.rt,
                l1: raw.l1,
                r1: raw.r1,
                triangle: raw.triangle,
                circle: raw.circle,
                cross: raw.cross,
                square: raw.square,
            },
            timestamp: raw.timestamp,
        }
    }

    /// Build a `ControllerInput` from a raw controller report: buttons,
    /// pressures and timestamp are copied, the four stick readings are
    /// normalised with [`normalise_axis`].
    pub fn from_raw(raw: RawCtrlData) -> (r: Self)
        ensures
            r == Self::from_raw_spec(raw),
            r.buttons == raw.buttons,
            r.timestamp == raw.timestamp,
            r.left_stick.x.num == raw.lx - 128 && r.left_stick.y.num == raw.ly - 128,
            r.right_stick.x.num == raw.rx - 128 && r.right_stick.y.num == raw.ry - 128,
            r.left_stick.x.den == 127 && r.left_stick.y.den == 127,
            r.right_stick.x.den == 127 && r.right_stick.y.den == 127,
    {
        ControllerInput {
            buttons: raw.buttons,
            left_stick: JoystickData { x: normalise_axis(raw.lx), y: normalise_axis(raw.ly) },
            right_stick: JoystickData { x: normalise_axis(raw.rx), y: normalise_axis(raw.ry) },
            pressure: DigitalPressure {
                up: raw.up,
                right: raw.right,
                down: raw.down,
                left: raw.left,
                l_trigger: raw.lt,
                r_trigger: raw.rt,
                l1: raw.l1,
                r1: raw.r1,
                triangle: raw.triangle,
                circle: raw.circle,
                cross: raw.cross,
                square: raw.square,
            },
            timestamp: raw.timestamp,
        }
    }

    // ── button queries ─────────────────────────────────────────────────

    /// Returns `true` when **any** of the given buttons are pressed.
    ///
    /// `buttons` is a [`Button`] or a `u32` mask such as
    /// `Button::Cross.bits() | Button::Circle.bits()`.
    pub fn is_pressed<M: Into<ButtonMask>>(&self, buttons: M) -> (r: bool)
        ensures
            <M as IntoSpec<ButtonMask>>::obeys_into_spec() ==> r == any_set(
                self.buttons,
                buttons.into_spec().0,
            ),
    {
        let mask: ButtonMask = buttons.into();
        (self.buttons & mask.0) != 0
    }

    /// Returns `true` when **all** of the given buttons are pressed.
    pub fn all_pressed<M: Into<ButtonMask>>(&self, buttons: M) -> (r: bool)
        ensures
            <M as IntoSpec<ButtonMask>>::obeys_into_spec() ==> r == all_set(
                self.buttons,
                buttons.into_spec().0,
            ),
    {
        let mask: ButtonMask = buttons.into();
        (self.buttons & mask.0) == mask.0
    }

    /// Returns `true` when **none** of the given buttons are pressed.
    pub fn released<M: Into<ButtonMask>>(&self, buttons: M) -> (r: bool)
        ensures
            <M as IntoSpec<ButtonMask>>::obeys_into_spec() ==> r == none_set(
                self.buttons,
                buttons.into_spec().0,
            ),
    {
        let mask: ButtonMask = buttons.into();
        (self.buttons & mask.0) == 0
    }

    // ── joystick ───────────────────────────────────────────────────────

    pub open spec fn joystick_spec(self, which: Joystick) -> JoystickData {
        match which {
            Joystick::Left => self.left_stick,
            Joystick::Right => self.right_stick,
        }
    }

    /// Return normalised data for one analogue stick.
    pub fn joystick(&self, which: Joystick) -> (r: JoystickData)
        ensures
            r == self.joystick_spec(which),
    {
        match which {
            Joystick::Left => self.left_stick,
            Joystick::Right => self.right_stick,
        }
    }
}

// ── ButtonMask ────────────────────────────────────────────────────────────

/// A bit-mask of [`Button`]s.
///
/// You rarely need to construct this directly — `Button` and `u32` masks
/// convert into it automatically.
#[derive(Clone, Copy, Debug, PartialEq, Eq, Hash, Structural)]
pub struct ButtonMask(pub u32);

impl From<Button> for ButtonMask {
    fn from(b: Button) -> (r: Self) {
        ButtonMask(b.bits())
    }
}

impl FromSpecImpl<Button> for ButtonMask {
    open spec fn obeys_from_spec() -> bool {
        true
    }

    open spec fn from_spec(v: Button) -> ButtonMask {
        ButtonMask(v.mask())
    }
}

impl From<u32> for ButtonMask {
    fn from(v: u32) -> (r: Self) {
        ButtonMask(v)
    }
}

impl FromSpecImpl<u32> for ButtonMask {
    open spec fn obeys_from_spec() -> bool {
        true
    }

    open spec fn from_spec(v: u32) -> ButtonMask {
        ButtonMask(v)
    }
}


// ── Laws ──────────────────────────────────────────────────────────────────

impl Button {
    /// The position of the button's bit in the register.
    pub open spec fn bit_index(self) -> u32 {
        match self {
            Button::Select => 0,
            Button::L3 => 1,
            Button::R3 => 2,
            Button::Start => 3,
            Button::Up => 4,
            Button::Right => 5,
            Button::Down => 6,
            Button::Left => 7,
            Button::LTrigger => 8,
            Button::RTrigger => 9,
            Button::L1 => 10,
            Button::R1 => 11,
            Button::Triangle => 12,
            Button::Circle => 13,
            Button::Cross => 14,
            Button::Square => 15,
            Button::Intercepted => 16,
            Button::Headphone => 19,
            Button::VolUp => 20,
            Button::VolDown => 21,
            Button::Power => 30,
        }
    }
}

proof fn lemma_mask_is_shifted_bit(b: Button)
    ensures
        b.bit_index() < 32,
        b.mask() == 1u32 << b.bit_index(),
{
    assert(1u32 << 0u32 == 0x0000_0001u32 && 1u32 << 1u32 == 0x0000_0002u32 && 1u32 << 2u32
        == 0x0000_0004u32 && 1u32 << 3u32 == 0x0000_0008u32 && 1u32 << 4u32 == 0x0000_0010u32
        && 1u32 << 5u32 == 0x0000_0020u32 && 1u32 << 6u32 == 0x0000_0040u32 && 1u32 << 7u32
        == 0x0000_0080u32 && 1u32 << 8u32 == 0x0000_0100u32 && 1u32 << 9u32 == 0x0000_0200u32
        && 1u32 << 10u32 == 0x0000_0400u32 && 1u32 << 11u32 == 0x0000_0800u32 && 1u32 << 12u32
        == 0x0000_1000u32 && 1u32 << 13u32 == 0x0000_2000u32 && 1u32 << 14u32 == 0x0000_4000u32
        && 1u32 << 15u32 == 0x0000_8000u32 && 1u32 << 16u32 == 0x0001_0000u32 && 1u32 << 19u32
        == 0x0008_0000u32 && 1u32 << 20u32 == 0x0010_0000u32 && 1u32 << 21u32 == 0x0020_0000u32
        && 1u32 << 30u32 == 0x4000_0000u32) by (bit_vector);
}

proof fn lemma_shifted_bits(i: u32, j: u32)
    requires
        i < 32,
        j < 32,
    ensures
        (1u32 << i) != 0,
        (1u32 << i) & (((1u32 << i) - 1u32) as u32) == 0,
        i != j ==> (1u32 << i) & (1u32 << j) == 0,
{
    assert((1u32 << i) != 0) by (bit_vector)
        requires
            i < 32,
    ;
    assert((1u32 << i) & (((1u32 << i) - 1u32) as u32) == 0) by (bit_vector)
        requires
            i < 32,
    ;
    assert(i != j ==> (1u32 << i) & (1u32 << j) == 0) by (bit_vector)
        requires
            i < 32,
            j < 32,
    ;
}

/// Every button is exactly one bit of the register, and no two buttons share
/// a bit.
pub proof fn lemma_button_bits_distinct(a: Button, b: Button)
    ensures
        a.mask() != 0,
        a.mask() & ((a.mask() - 1u32) as u32) == 0,
        a != b ==> a.mask() & b.mask() == 0,
{
    lemma_mask_is_shifted_bit(a);
    lemma_mask_is_shifted_bit(b);
    lemma_shifted_bits(a.bit_index(), b.bit_index());
}

/// A mask counts as released exactly when it does not count as pressed.
pub proof fn lemma_released_iff_not_pressed(state: u32, mask: u32)
    ensures
        none_set(state, mask) <==> !any_set(state, mask),
{
}

/// When all buttons of a non-empty mask are pressed, some of them are.
pub proof fn lemma_all_pressed_implies_pressed(state: u32, mask: u32)
    requires
        mask != 0,
        all_set(state, mask),
    ensures
        any_set(state, mask),
{
    assert(mask != 0 && state & mask == mask ==> state & mask != 0) by (bit_vector);
}

/// The empty mask is never pressed, always all pressed and always released.
pub proof fn lemma_empty_mask(state: u32)
    ensures
        !any_set(state, 0),
        all_set(state, 0),
        none_set(state, 0),
{
    assert(state & 0 == 0) by (bit_vector);
}

/// For a single button, "any pressed" and "all pressed" agree.
pub proof fn lemma_single_button_any_is_all(state: u32, b: Button)
    ensures
        any_set(state, b.mask()) <==> all_set(state, b.mask()),
{
    lemma_button_bits_distinct(b, b);
    let m = b.mask();
    assert(m != 0 && m & ((m - 1u32) as u32) == 0 ==> (state & m != 0 <==> state & m == m))
        by (bit_vector);
}

/// Combining masks with `|`: some button of `a | b` is pressed exactly when
/// some button of `a` or some button of `b` is; all of them are exactly when
/// all of `a` and all of `b` are.
pub proof fn lemma_mask_union(state: u32, a: u32, b: u32)
    ensures
        any_set(state, a | b) <==> (any_set(state, a) || any_set(state, b)),
        all_set(state, a | b) <==> (all_set(state, a) && all_set(state, b)),
        none_set(state, a | b) <==> (none_set(state, a) && none_set(state, b)),
{
    assert(state & (a | b) != 0 <==> (state & a != 0 || state & b != 0)) by (bit_vector);
    assert(state & (a | b) == a | b <==> (state & a == a && state & b == b)) by (bit_vector);
    assert(state & (a | b) == 0 <==> (state & a == 0 && state & b == 0)) by (bit_vector);
}

/// Pressing one more button: setting a button's bit makes it pressed and
/// leaves every other button as it was.
pub proof fn lemma_press_button(state: u32, pressed: Button, other: Button)
    ensures
        any_set(state | pressed.mask(), pressed.mask()),
        other != pressed ==> (any_set(state | pressed.mask(), other.mask()) <==> any_set(
            state,
            other.mask(),
        )),
{
    lemma_button_bits_distinct(pressed, other);
    let p = pressed.mask();
    let o = other.mask();
    assert(p != 0 ==> (state | p) & p != 0) by (bit_vector);
    assert(p & o == 0 ==> ((state | p) & o != 0 <==> state & o != 0)) by (bit_vector);
}

/// The resting reading is zero, the highest reading is one, every reading
/// but the lowest lies in `[-1, 1]` (the lowest is `-128/127`), and readings
/// equally far from the centre are negatives of each other.
pub proof fn lemma_normalise_axis_range(raw: u8, k: u8)
    requires
        k <= 127,
    ensures
        normalise_axis_spec(128).num == 0,
        normalise_axis_spec(255).same_value(Ratio::one()),
        normalise_axis_spec(0).num == -128,
        -128 <= normalise_axis_spec(raw).num <= normalise_axis_spec(raw).den,
        raw >= 1 ==> -normalise_axis_spec(raw).den <= normalise_axis_spec(raw).num,
        normalise_axis_spec((128 + k) as u8).num == -normalise_axis_spec((128 - k) as u8).num,
{
}

/// A larger raw reading never gives a smaller normalised value.
pub proof fn lemma_normalise_axis_monotonic(a: u8, b: u8)
    requires
        a <= b,
    ensures
        normalise_axis_spec(a).num <= normalise_axis_spec(b).num,
        normalise_axis_spec(a).den == normalise_axis_spec(b).den,
{
}


/// A snapshot keeps the report's button register, timestamp and pressures
/// unchanged, so a button counts as pressed in the snapshot exactly when its
/// bit is set in the report; each stick axis is the reading's distance from
/// the centre, in 127ths.
pub proof fn lemma_from_raw_keeps_report(raw: RawCtrlData, b: Button)
    ensures
        ({
            let c = ControllerInput::from_raw_spec(raw);
            &&& c.buttons == raw.buttons
            &&& any_set(c.buttons, b.mask()) == (raw.buttons & b.mask() != 0)
            &&& all_set(c.buttons, b.mask()) == (raw.buttons & b.mask() == b.mask())
            &&& c.timestamp == raw.timestamp
            &&& c.left_stick.x.num == raw.lx - 128 && c.left_stick.x.den == 127
            &&& c.left_stick.y.num == raw.ly - 128 && c.left_stick.y.den == 127
            &&& c.right_stick.x.num == raw.rx - 128 && c.right_stick.x.den == 127
            &&& c.right_stick.y.num == raw.ry - 128 && c.right_stick.y.den == 127
            &&& c.pressure.up == raw.up && c.pressure.right == raw.right
            &&& c.pressure.down == raw.down && c.pressure.left == raw.left
            &&& c.pressure.l_trigger == raw.lt && c.pressure.r_trigger == raw.rt
            &&& c.pressure.l1 == raw.l1 && c.pressure.r1 == raw.r1
            &&& c.pressure.triangle == raw.triangle && c.pressure.circle == raw.circle
            &&& c.pressure.cross == raw.cross && c.pressure.square == raw.square
        }),
{
}

/// Stick normalisation is linear: every reading is its distance from the
/// resting value 128 in 127ths, so readings one apart differ by exactly
/// `1/127`.
pub proof fn lemma_normalise_axis_linear(raw: u8)
    ensures
        normalise_axis_spec(raw).same_value(Ratio { num: (raw - 128) as i32, den: 127 }),
        normalise_axis_spec(raw).den == 127,
        normalise_axis_spec(raw).num == raw - 128,
        raw < 255 ==> normalise_axis_spec((raw + 1) as u8).num == normalise_axis_spec(raw).num + 1,
        raw < 255 ==> normalise_axis_spec((raw + 1) as u8).den == normalise_axis_spec(raw).den,
{
}

} // verus!
