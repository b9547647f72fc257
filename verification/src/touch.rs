//! Touch panel input for the PlayStation Vita.
//!
//! A [`TouchInput`] is built from a [`RawTouchData`] sample, the plain values
//! of one report of the front touchscreen or the rear touch pad. It holds up
//! to [`TouchInput::MAX_POINTS`] touch points; only the first `point_count`
//! of them are active. Raw coordinates are panel-native; [`TouchPanelInfo`]
//! turns them into exact fractions of the panel in `[0, 1]`.

use vstd::prelude::*;
use vstd::std_specs::convert::TryFromSpecImpl;

use crate::ratio::{clamp01, clamp01_spec, clamped_quotient, clamped_quotient_spec, Ratio};
use crate::text::{append_decimal, decimal};

verus! {

// ── TouchPort ─────────────────────────────────────────────────────────────

/// Which touch panel to read from.
#[derive(Clone, Copy, Debug, PartialEq, Eq, Hash, Structural)]
pub enum TouchPort {
    /// Front touchscreen.
    Front,
    /// Rear touch pad.
    Back,
}

impl TouchPort {
    /// Total number of touch ports available.
    pub const MAX: u32 = 2;

    /// The port's number (`SceTouchPortType`).
    pub open spec fn raw(self) -> u32 {
        match self {
            TouchPort::Front => 0,
            TouchPort::Back => 1,
        }
    }

    /// The port's number, as the system expects it.
    pub fn to_raw(self) -> (r: u32)
        ensures
            r == self.raw(),
            r < Self::MAX,
    {
        match self {
            TouchPort::Front => 0,
            TouchPort::Back => 1,
        }
    }

    pub open spec fn name(self) -> Seq<char> {
        match self {
            TouchPort::Front => "Front"@,
            TouchPort::Back => "Back"@,
        }
    }

    /// The port's name (`"Front"` or `"Back"`).
    pub fn to_string(&self) -> (s: String)
        ensures
            s@ == self.name(),
    {
        match self {
            TouchPort::Front => String::from_str("Front"),
            TouchPort::Back => String::from_str("Back"),
        }
    }
}

/// The port with number `value`, if there is one.
pub open spec fn port_from_raw(value: u32) -> Result<TouchPort, ()> {
    if value == 0 {
        Ok(TouchPort::Front)
    } else if value == 1 {
        Ok(TouchPort::Back)
    } else {
        Err(())
    }
}

impl TryFrom<u32> for TouchPort {
    type Error = ();

    fn try_from(value: u32) -> (r: Result<Self, Self::Error>) {
        if value == 0 {
            Ok(TouchPort::Front)
        } else if value == 1 {
            Ok(TouchPort::Back)
        } else {
            Err(())
        }
    }
}

impl TryFromSpecImpl<u32> for TouchPort {
    open spec fn obeys_try_from_spec() -> bool {
        true
    }

    open spec fn try_from_spec(v: u32) -> Result<Self, Self::Error> {
        port_from_raw(v)
    }
}


// ── TouchPanelInfo ────────────────────────────────────────────────────────

/// The values of a panel description (`SceTouchPanelInfo`) that the library
/// reads.
#[derive(Clone, Copy, Debug, PartialEq, Eq, Hash, Structural)]
pub struct RawPanelInfo {
    pub min_aa_x: i16,
    pub min_aa_y: i16,
    pub max_aa_x: i16,
    pub max_aa_y: i16,
    pub min_disp_x: i16,
    pub min_disp_y: i16,
    pub max_disp_x: i16,
    pub max_disp_y: i16,
    pub min_force: u8,
    pub max_force: u8,
}

/// Calibration information for a touch panel.
///
/// Use this to normalise raw touch coordinates into `[0, 1]`.
#[derive(Clone, Copy, Debug, PartialEq, Eq, Hash, Structural)]
pub struct TouchPanelInfo {
    /// Minimum X in anti-aliased coordinate space.
    pub min_aa_x: i16,
    /// Minimum Y in anti-aliased coordinate space.
    pub min_aa_y: i16,
    /// Maximum X in anti-aliased coordinate space.
    pub max_aa_x: i16,
    /// Maximum Y in anti-aliased coordinate space.
    pub max_aa_y: i16,
    /// Minimum X in display coordinate space.
    pub min_disp_x: i16,
    /// Minimum Y in display coordinate space.
    pub min_disp_y: i16,
    /// Maximum X in display coordinate space.
    pub max_disp_x: i16,
    /// Maximum Y in display coordinate space.
    pub max_disp_y: i16,
    /// Minimum detectable touch force (0-255).
    pub min_force: u8,
    /// Maximum detectable touch force (0-255).
    pub max_force: u8,
}

/// `v` is a value of `i16`.
pub open spec fn fits_i16(v: int) -> bool {
    i16::MIN <= v <= i16::MAX
}

impl TouchPanelInfo {
    /// The calibration that a raw panel description stands for.
    pub open spec fn from_raw_spec(raw: RawPanelInfo) -> TouchPanelInfo {
        TouchPanelInfo {
            min_aa_x: raw.min_aa_x,
            min_aa_y: raw.min_aa_y,
            max_aa_x: raw.max_aa_x,
            max_aa_y: raw.max_aa_y,
            min_disp_x: raw.min_disp_x,
            min_disp_y: raw.min_disp_y,
            max_disp_x: raw.max_disp_x,
            max_disp_y: raw.max_disp_y,
            min_force: raw.min_force,
            max_force: raw.max_force,
        }
    }

    /// Build the calibration from a raw panel description.
    pub fn from_raw(raw: &RawPanelInfo) -> (r: Self)
        ensures
            r == Self::from_raw_spec(*raw),
    {
        TouchPanelInfo {
            min_aa_x: raw.min_aa_x,
            min_aa_y: raw.min_aa_y,
            max_aa_x: raw.max_aa_x,
            max_aa_y: raw.max_aa_y,
            min_disp_x: raw.min_disp_x,
            min_disp_y: raw.min_disp_y,
            max_disp_x: raw.max_disp_x,
            max_disp_y: raw.max_disp_y,
            min_force: raw.min_force,
            max_force: raw.max_force,
        }
    }

    /// Width of the panel in anti-aliased coordinates.
    pub fn aa_width(self) -> (r: i16)
        requires
            fits_i16(self.max_aa_x - self.min_aa_x),
        ensures
            r == self.max_aa_x - self.min_aa_x,
    {
        self.max_aa_x - self.min_aa_x
    }

    /// Height of the panel in anti-aliased coordinates.
    pub fn aa_height(self) -> (r: i16)
        requires
            fits_i16(self.max_aa_y - self.min_aa_y),
        ensures
            r == self.max_aa_y - self.min_aa_y,
    {
        self.max_aa_y - self.min_aa_y
    }

    /// Width of the panel in display coordinates.
    pub fn disp_width(self) -> (r: i16)
        requires
            fits_i16(self.max_disp_x - self.min_disp_x),
        ensures
            r == self.max_disp_x - self.min_disp_x,
    {
        self.max_disp_x - self.min_disp_x
    }

    /// Height of the panel in display coordinates.
    pub fn disp_height(self) -> (r: i16)
        requires
            fits_i16(self.max_disp_y - self.min_disp_y),
        ensures
            r == self.max_disp_y - self.min_disp_y,
    {
        self.max_disp_y - self.min_disp_y
    }
}

// ── TouchPoint ────────────────────────────────────────────────────────────

/// The values of one touch report (`SceTouchReport`) that the library reads.
#[derive(Clone, Copy, Debug, PartialEq, Eq, Hash, Structural)]
pub struct RawTouchReport {
    pub id: u8,
    pub force: u8,
    pub x: i16,
    pub y: i16,
}

/// A single touch report from the panel.
///
/// Each point represents one finger or capacitive contact on the screen.
/// The touch `id` stays consistent while the same finger is held down,
/// allowing you to track individual fingers across frames.
#[derive(Clone, Copy, Debug, PartialEq, Eq, Hash, Structural)]
pub struct TouchPoint {
    /// Touch identifier — remains consistent while the finger is held down.
    pub id: u8,
    /// Raw X coordinate in panel-native coordinates.
    pub x: i16,
    /// Raw Y coordinate in panel-native coordinates.
    pub y: i16,
    /// Touch force / pressure (0-255).
    ///
    /// Always 0 unless force reporting has been enabled for the panel.
    pub force: u8,
}

impl TouchPoint {
    /// The point that a raw touch report stands for.
    pub open spec fn from_raw_spec(report: RawTouchReport) -> TouchPoint {
        TouchPoint { id: report.id, x: report.x, y: report.y, force: report.force }
    }

    /// The point in an unused slot.
    pub open spec fn empty() -> TouchPoint {
        TouchPoint { id: 0, x: 0, y: 0, force: 0 }
    }

    /// Create a `TouchPoint` from a raw touch report.
    pub fn from_raw(report: &RawTouchReport) -> (r: Self)
        ensures
            r == Self::from_raw_spec(*report),
            r == (TouchPoint { id: report.id, x: report.x, y: report.y, force: report.force }),
    {
        TouchPoint { id: report.id, x: report.x, y: report.y, force: report.force }
    }

    /// The inputs on which [`TouchPoint::normalized_aa`] computes without
    /// overflowing `i16`.
    pub open spec fn aa_in_range(self, info: TouchPanelInfo) -> bool {
        &&& fits_i16(info.max_aa_x - info.min_aa_x)
        &&& fits_i16(info.max_aa_y - info.min_aa_y)
        &&& fits_i16(self.x - info.min_aa_x)
        &&& fits_i16(self.y - info.min_aa_y)
    }

    /// The inputs on which [`TouchPoint::normalized_display`] computes
    /// without overflowing `i16`.
    pub open spec fn display_in_range(self, info: TouchPanelInfo) -> bool {
        &&& fits_i16(info.max_disp_x - info.min_disp_x)
        &&& fits_i16(info.max_disp_y - info.min_disp_y)
        &&& fits_i16(self.x - info.min_disp_x)
        &&& fits_i16(self.y - info.min_disp_y)
    }

    pub open spec fn normalized_aa_spec(self, info: TouchPanelInfo) -> (Ratio, Ratio) {
        (
            clamped_quotient_spec(self.x - info.min_aa_x, info.max_aa_x - info.min_aa_x),
            clamped_quotient_spec(self.y - info.min_aa_y, info.max_aa_y - info.min_aa_y),
        )
    }

    pub open spec fn normalized_display_spec(self, info: TouchPanelInfo) -> (Ratio, Ratio) {
        (
            clamped_quotient_spec(self.x - info.min_disp_x, info.max_disp_x - info.min_disp_x),
            clamped_quotient_spec(self.y - info.min_disp_y, info.max_disp_y - info.min_disp_y),
        )
    }

    /// Normalise this point's coordinates to `[0, 1]` using the panel's
    /// anti-aliased (high-resolution) coordinate range.
    ///
    /// Each coordinate is `(c - min) / (max - min)` clamped to `[0, 1]`. On a
    /// degenerate range (`max == min`) a coordinate above it gives one, and
    /// one on it or below it zero.
    pub fn normalized_aa(&self, info: &TouchPanelInfo) -> (r: (Ratio, Ratio))
        requires
            self.aa_in_range(*info),
        ensures
            r == self.normalized_aa_spec(*info),
            r.0.in_unit(),
            r.1.in_unit(),
    {
        let dx = info.aa_width();
        let dy = info.aa_height();
        let x = clamped_quotient((self.x - info.min_aa_x) as i32, dx as i32);
        let y = clamped_quotient((self.y - info.min_aa_y) as i32, dy as i32);
        (x, y)
    }

    /// Normalise this point's coordinates to `[0, 1]` using the panel's
    /// display coordinate range.
    ///
    /// This is typically what you want for mapping touch input to your
    /// rendering viewport. Each coordinate is computed as in
    /// [`TouchPoint::normalized_aa`], over the display range.
    pub fn normalized_display(&self, info: &TouchPanelInfo) -> (r: (Ratio, Ratio))
        requires
            self.display_in_range(*info),
        ensures
            r == self.normalized_display_spec(*info),
            r.0.in_unit(),
            r.1.in_unit(),
    {
        let dx = info.disp_width();
        let dy = info.disp_height();
        let x = clamped_quotient((self.x - info.min_disp_x) as i32, dx as i32);
        let y = clamped_quotient((self.y - info.min_disp_y) as i32, dy as i32);
        (x, y)
    }

    /// The inputs on which [`TouchPoint::normalized_force`] computes without
    /// going below zero.
    pub open spec fn force_in_range(self, info: TouchPanelInfo) -> bool {
        &&& info.min_force <= info.max_force
        &&& info.min_force < info.max_force ==> info.min_force <= self.force
    }

    pub open spec fn normalized_force_spec(self, info: TouchPanelInfo) -> Ratio {
        if info.max_force == info.min_force {
            Ratio::zero()
        } else {
            clamp01_spec(
                Ratio {
                    num: (self.force - info.min_force) as i32,
                    den: (info.max_force - info.min_force) as i32,
                },
            )
        }
    }

    /// Normalise the force value to `[0, 1]` using the panel's reported
    /// force range: `(force - min) / (max - min)`, at most one, and zero on
    /// an empty range.
    pub fn normalized_force(&self, info: &TouchPanelInfo) -> (r: Ratio)
        requires
            self.force_in_range(*info),
        ensures
            r == self.normalized_force_spec(*info),
            r.in_unit(),
    {
        let d = info.max_force - info.min_force;
        if d == 0 {
            return Ratio { num: 0, den: 1 };
        }
        clamp01(Ratio { num: (self.force - info.min_force) as i32, den: d as i32 })
    }

    /// The text of the point: `Touch #<id>: (<x>, <y>), f=<force>`.
    pub open spec fn text(self) -> Seq<char> {
        "Touch #"@ + decimal(self.id as int) + ": ("@ + decimal(self.x as int) + ", "@ + decimal(
            self.y as int,
        ) + "), f="@ + decimal(self.force as int)
    }

    /// The point written out, as in `Touch #1: (100, -20), f=0`.
    pub fn to_string(&self) -> (s: String)
        ensures
            s@ == self.text(),
    {
        let mut s = String::from_str("Touch #");
        append_decimal(&mut s, self.id as i128);
        s.append(": (");
        append_decimal(&mut s, self.x as i128);
        s.append(", ");
        append_decimal(&mut s, self.y as i128);
        s.append("), f=");
        append_decimal(&mut s, self.force as i128);
        s
    }

    /// The point's debug text: `TouchPoint { id: 1, x: 100, y: -20, force: 0 }`.
    pub open spec fn debug_text(self) -> Seq<char> {
        "TouchPoint { id: "@ + decimal(self.id as int) + ", x: "@ + decimal(self.x as int)
            + ", y: "@ + decimal(self.y as int) + ", force: "@ + decimal(self.force as int)
            + " }"@
    }

    /// Append the point's debug text to `s`.
    pub fn append_debug(&self, s: &mut String)
        ensures
            final(s)@ == old(s)@ + self.debug_text(),
    {
        s.append("TouchPoint { id: ");
        append_decimal(s, self.id as i128);
        s.append(", x: ");
        append_decimal(s, self.x as i128);
        s.append(", y: ");
        append_decimal(s, self.y as i128);
        s.append(", force: ");
        append_decimal(s, self.force as i128);
        s.append(" }");
    }
}

/// The debug texts of `points`, separated by `", "`.
pub open spec fn debug_entries(points: Seq<TouchPoint>) -> Seq<char>
    decreases points.len(),
{
    if points.len() == 0 {
        Seq::empty()
    } else if points.len() == 1 {
        points[0].debug_text()
    } else {
        debug_entries(points.drop_last()) + ", "@ + points.last().debug_text()
    }
}

/// The debug text of a list of points: `[` and `]` around their entries.
pub open spec fn debug_list(points: Seq<TouchPoint>) -> Seq<char> {
    "["@ + debug_entries(points) + "]"@
}


// ── TouchInput ────────────────────────────────────────────────────────────

/// The values of one touch sample (`SceTouchData`) that the library reads.
#[derive(Clone, Copy, Debug)]
pub struct RawTouchData {
    /// Hardware timestamp (microseconds).
    pub timestamp: u64,
    /// Number of reports the system filled in.
    pub report_num: u32,
    /// The reports; only the first `report_num` (at most eight) are filled in.
    pub report: [RawTouchReport; 8],
}

/// A snapshot of one touch panel's state at a point in time.
///
/// The hardware reports up to 8 simultaneous touch points; the active ones
/// are the first `point_count` (see [`TouchInput::iter`],
/// [`TouchInput::as_slice`]).
///
/// Its debug text, with the active points only, is
/// [`TouchInput::to_debug_string`].
#[derive(Clone, Copy)]
pub struct TouchInput {
    /// Hardware timestamp (microseconds).
    pub timestamp: u64,
    /// Number of active touch points (0-8).
    pub point_count: u32,
    /// Raw touch reports.  Only indices `0..point_count` are valid; the
    /// others hold [`TouchPoint::empty`] in snapshots built by
    /// [`TouchInput::from_raw`].
    pub points: [TouchPoint; 8],
}

impl TouchInput {
    /// The maximum number of simultaneous touch points the hardware can
    /// report.
    pub const MAX_POINTS: usize = 8;

    /// All eight point slots, active or not.
    pub open spec fn slots(self) -> Seq<TouchPoint> {
        self.points@
    }

    /// The active point count is within the hardware's limit; every snapshot
    /// built by [`TouchInput::from_raw`] has it.
    pub open spec fn wf(self) -> bool {
        self.point_count <= 8
    }

    /// Number of active points of a raw sample: its report count, at most
    /// eight.
    pub open spec fn count_of(raw: RawTouchData) -> u32 {
        if raw.report_num < 8 {
            raw.report_num
        } else {
            8
        }
    }

    /// A snapshot always has eight slots.
    pub proof fn lemma_slots_len(self)
        ensures
            self.slots().len() == 8,
    {
    }

    /// Build a snapshot from a raw touch sample: at most eight reports are
    /// taken over, the remaining slots hold [`TouchPoint::empty`].
    pub fn from_raw(raw: &RawTouchData) -> (r: Self)
        ensures
            r.timestamp == raw.timestamp,
            r.point_count == Self::count_of(*raw),
            r.wf(),
            r.slots().len() == 8,
            forall|i: int|
                0 <= i < r.point_count ==> #[trigger] r.slots()[i] == TouchPoint::from_raw_spec(
                    raw.report@[i],
                ),
            forall|i: int| r.point_count <= i < 8 ==> #[trigger] r.slots()[i] == TouchPoint::empty(),
            forall|i: int|
                0 <= i < r.point_count ==> #[trigger] r.slots()[i] == (TouchPoint {
                    id: raw.report@[i].id,
                    x: raw.report@[i].x,
                    y: raw.report@[i].y,
                    force: raw.report@[i].force,
                }),
            r@ == raw.report@.take(Self::count_of(*raw) as int).map_values(
                |report: RawTouchReport| TouchPoint::from_raw_spec(report),
            ),
    {
        let report_num: usize = if raw.report_num < 8 {
            raw.report_num as usize
        } else {
            8
        };
        let mut points = [TouchPoint { id: 0, x: 0, y: 0, force: 0 }; 8];
        let mut i: usize = 0;
        while i < report_num
            invariant
                report_num <= 8,
                report_num == Self::count_of(*raw),
                i <= report_num,
                points@.len() == 8,
                forall|j: int|
                    0 <= j < i ==> #[trigger] points@[j] == TouchPoint::from_raw_spec(
                        raw.report@[j],
                    ),
                forall|j: int| i <= j < 8 ==> #[trigger] points@[j] == TouchPoint::empty(),
            decreases report_num - i,
        {
            points[i] = TouchPoint::from_raw(&raw.report[i]);
            i = i + 1;
        }
        let r = TouchInput { timestamp: raw.timestamp, point_count: report_num as u32, points };
        assert(r@ =~= raw.report@.take(Self::count_of(*raw) as int).map_values(
            |report: RawTouchReport| TouchPoint::from_raw_spec(report),
        ));
        r
    }

    // ── queries ────────────────────────────────────────────────────────

    /// Returns `true` when at least one finger is touching the panel.
    pub fn is_touching(&self) -> (r: bool)
        ensures
            r == (self.point_count > 0),
    {
        self.point_count > 0
    }

    /// Returns the first touch point, or `None` if nothing is touching
    /// the panel.
    pub fn first(&self) -> (r: Option<TouchPoint>)
        ensures
            r == (if self.point_count > 0 {
                Some(self.slots()[0])
            } else {
                None
            }),
    {
        if self.point_count > 0 {
            Some(self.points[0])
        } else {
            None
        }
    }

    /// Returns the touch point at the given index, or `None` if the index
    /// is out of range.
    pub fn get(&self, index: usize) -> (r: Option<TouchPoint>)
        requires
            index < self.point_count ==> index < Self::MAX_POINTS,
        ensures
            r == (if index < self.point_count {
                Some(self.slots()[index as int])
            } else {
                None
            }),
    {
        if index < self.point_count as usize {
            Some(self.points[index])
        } else {
            None
        }
    }

    /// Iterate over all active touch points.
    ///
    /// The iterator covers slots `0..point_count`; on a snapshot with at
    /// most eight active points (every snapshot built by
    /// [`TouchInput::from_raw`]) that is exactly the active points.
    pub fn iter(&self) -> (r: TouchIter<'_>)
        ensures
            r.source() == *self,
            r.front_pos() == 0,
            r.back_pos() == self.point_count,
            r@.len() == self.point_count,
            self.wf() ==> r@ == self@,
    {
        TouchIter { touch: self, front: 0, back: self.point_count as usize }
    }

    /// Return all active touch points as a slice.
    pub fn as_slice(&self) -> (r: &[TouchPoint])
        requires
            self.wf(),
        ensures
            r@ == self@,
    {
        vstd::slice::slice_subrange(self.points.as_slice(), 0, self.point_count as usize)
    }
}

impl TouchInput {
    /// The snapshot's debug text, listing only the active points:
    /// `TouchInput { timestamp: 5, point_count: 1, points: [TouchPoint { .. }] }`.
    pub open spec fn debug_text(self) -> Seq<char> {
        "TouchInput { timestamp: "@ + decimal(self.timestamp as int) + ", point_count: "@
            + decimal(self.point_count as int) + ", points: "@ + debug_list(self@) + " }"@
    }

    /// The snapshot written out for debugging, with its active points only.
    pub fn to_debug_string(&self) -> (s: String)
        requires
            self.wf(),
        ensures
            s@ == self.debug_text(),
    {
        let mut s = String::from_str("TouchInput { timestamp: ");
        append_decimal(&mut s, self.timestamp as i128);
        s.append(", point_count: ");
        append_decimal(&mut s, self.point_count as i128);
        s.append(", points: ");
        append_debug_list(&mut s, self.as_slice());
        s.append(" }");
        s
    }
}

/// Append the debug text of the list `points` to `s`.
pub fn append_debug_list(s: &mut String, points: &[TouchPoint])
    ensures
        final(s)@ == old(s)@ + debug_list(points@),
{
    s.append("[");
    let mut i: usize = 0;
    while i < points.len()
        invariant
            i <= points@.len(),
            s@ == old(s)@ + "["@ + debug_entries(points@.take(i as int)),
        decreases points@.len() - i,
    {
        if i > 0 {
            s.append(", ");
        }
        points[i].append_debug(s);
        proof {
            let taken = points@.take(i + 1);
            assert(taken.drop_last() =~= points@.take(i as int));
            assert(taken.last() == points@[i as int]);
            if i == 0 {
                assert(debug_entries(taken) == points@[0].debug_text());
            }
        }
        i = i + 1;
    }
    assert(points@.take(i as int) =~= points@);
    s.append("]");
}

impl View for TouchInput {
    type V = Seq<TouchPoint>;

    /// The active touch points, in report order.
    open spec fn view(&self) -> Seq<TouchPoint> {
        self.slots().take(self.point_count as int)
    }
}

// ── TouchIter ─────────────────────────────────────────────────────────────

/// Iterator over the active touch points in a [`TouchInput`] snapshot.
///
/// Created by [`TouchInput::iter`]. Points are taken from the front with
/// [`TouchIter::next`] and from the back with [`TouchIter::next_back`].
#[derive(Clone, Copy)]
pub struct TouchIter<'a> {
    touch: &'a TouchInput,
    front: usize,
    back: usize,
}

/// Take one point from the front (`from_back == false`) or the back of the
/// points `s` not yet taken: the point, if there is one, and what is left.
pub open spec fn take_one(s: Seq<TouchPoint>, from_back: bool) -> (Option<TouchPoint>, Seq<
    TouchPoint,
>) {
    if s.len() == 0 {
        (None, s)
    } else if from_back {
        (Some(s.last()), s.drop_last())
    } else {
        (Some(s[0]), s.drop_first())
    }
}

/// Take points from `s` by the calls `ops`, in order (`true` for a call from
/// the back): the points taken from the front, those taken from the back
/// (each in the order taken), and what is left.
pub open spec fn take_all(s: Seq<TouchPoint>, ops: Seq<bool>) -> (
    Seq<TouchPoint>,
    Seq<TouchPoint>,
    Seq<TouchPoint>,
)
    decreases ops.len(),
{
    if ops.len() == 0 {
        (Seq::empty(), Seq::empty(), s)
    } else {
        let (f, b, rest) = take_all(s, ops.drop_last());
        let (p, left) = take_one(rest, ops.last());
        match p {
            Some(q) => if ops.last() {
                (f, b.push(q), left)
            } else {
                (f.push(q), b, left)
            },
            None => (f, b, left),
        }
    }
}

impl<'a> TouchIter<'a> {
    /// The front position is never past the back position.
    #[verifier::type_invariant]
    spec fn inv(self) -> bool {
        self.front <= self.back
    }

    /// The slot that the next call from the front reads.
    pub closed spec fn front_pos(self) -> int {
        self.front as int
    }

    /// One past the slot that the next call from the back reads.
    pub closed spec fn back_pos(self) -> int {
        self.back as int
    }

    /// The snapshot being iterated.
    pub closed spec fn source(self) -> TouchInput {
        *self.touch
    }

    /// The points not yet taken, front first: the slots from the front
    /// position up to the back position.
    pub closed spec fn remaining(self) -> Seq<TouchPoint> {
        let len: nat = if self.front <= self.back {
            (self.back - self.front) as nat
        } else {
            0
        };
        Seq::new(len, |i: int| self.touch.slots()[self.front + i])
    }

    /// A call from the front reads a slot of the snapshot.
    pub open spec fn front_readable(self) -> bool {
        self@.len() > 0 ==> self.front_pos() < 8
    }

    /// A call from the back reads a slot of the snapshot.
    pub open spec fn back_readable(self) -> bool {
        self@.len() > 0 ==> self.back_pos() <= 8
    }

    /// Every call reads a slot of the snapshot once the back position is
    /// within the eight slots, as it is for an iterator over a snapshot with
    /// at most eight active points.
    pub proof fn lemma_readable(self)
        requires
            self.back_pos() <= 8,
        ensures
            self.front_readable(),
            self.back_readable(),
    {
    }

    /// Take the next point from the front.
    pub fn next(&mut self) -> (r: Option<TouchPoint>)
        requires
            old(self).front_readable(),
        ensures
            (r, final(self)@) == take_one(old(self)@, false),
            final(self).source() == old(self).source(),
            final(self).back_pos() == old(self).back_pos(),
            final(self).front_pos() == old(self).front_pos() + (if r is Some {
                1int
            } else {
                0int
            }),
    {
        proof {
            use_type_invariant(&*self);
        }
        if self.front < self.back {
            let point = self.touch.points[self.front];
            self.front = self.front + 1;
            assert(self@ =~= old(self)@.drop_first());
            Some(point)
        } else {
            None
        }
    }

    /// Take the next point from the back.
    pub fn next_back(&mut self) -> (r: Option<TouchPoint>)
        requires
            old(self).back_readable(),
        ensures
            (r, final(self)@) == take_one(old(self)@, true),
            final(self).source() == old(self).source(),
            final(self).front_pos() == old(self).front_pos(),
            final(self).back_pos() == old(self).back_pos() - (if r is Some {
                1int
            } else {
                0int
            }),
    {
        proof {
            use_type_invariant(&*self);
        }
        if self.front < self.back {
            self.back = self.back - 1;
            assert(self@ =~= old(self)@.drop_last());
            Some(self.touch.points[self.back])
        } else {
            None
        }
    }

    /// Lower and upper bound of the number of points left: both exact.
    pub fn size_hint(&self) -> (r: (usize, Option<usize>))
        ensures
            r.0 == self@.len(),
            r.1 == Some(r.0),
    {
        proof {
            use_type_invariant(self);
        }
        let remaining = self.back - self.front;
        (remaining, Some(remaining))
    }

    /// The number of points left.
    pub fn count(self) -> (r: usize)
        ensures
            r == self@.len(),
    {
        proof {
            use_type_invariant(&self);
        }
        self.back - self.front
    }

    /// The points left, written out as a debug list.
    pub fn to_debug_string(&self) -> (s: String)
        requires
            self.back_readable(),
        ensures
            s@ == debug_list(self@),
    {
        proof {
            use_type_invariant(self);
        }
        let mut points: Vec<TouchPoint> = Vec::new();
        let mut i: usize = self.front;
        while i < self.back
            invariant
                self.front <= i <= self.back,
                self.front < self.back ==> self.back <= 8,
                points@ == self@.take(i - self.front),
            decreases self.back - i,
        {
            points.push(self.touch.points[i]);
            proof {
                assert(points@ =~= self@.take(i + 1 - self.front));
            }
            i = i + 1;
        }
        assert(points@ =~= self@);
        let mut s = String::new();
        append_debug_list(&mut s, points.as_slice());
        s
    }

    /// The last point left, if any.
    pub fn last(self) -> (r: Option<TouchPoint>)
        requires
            self.back_readable(),
        ensures
            r == take_one(self@, true).0,
    {
        let mut it = self;
        it.next_back()
    }
}

impl<'a> View for TouchIter<'a> {
    type V = Seq<TouchPoint>;

    open spec fn view(&self) -> Seq<TouchPoint> {
        self.remaining()
    }
}

/// Any interleaving of calls from the front and from the back takes every
/// point exactly once: the points taken from the front, then those left,
/// then those taken from the back in reverse order, are the points
/// themselves. After `k` calls that returned a point, `len - k` are left —
/// the number [`TouchIter::size_hint`] and [`TouchIter::count`] report.
pub proof fn lemma_take_all_partitions(s: Seq<TouchPoint>, ops: Seq<bool>)
    ensures
        ({
            let (f, b, rest) = take_all(s, ops);
            &&& f + rest + b.reverse() == s
            &&& f.len() + b.len() + rest.len() == s.len()
        }),
    decreases ops.len(),
{
    if ops.len() > 0 {
        lemma_take_all_partitions(s, ops.drop_last());
        let (f, b, rest) = take_all(s, ops.drop_last());
        let (p, left) = take_one(rest, ops.last());
        if rest.len() > 0 {
            if ops.last() {
                assert(b.push(rest.last()).reverse() =~= seq![rest.last()] + b.reverse());
                assert(f + left + b.push(rest.last()).reverse() =~= f + rest + b.reverse());
            } else {
                assert(f.push(rest[0]) + left + b.reverse() =~= f + rest + b.reverse());
            }
        }
    }
}

/// Iterating a snapshot with at most eight active points by any interleaving
/// of calls takes each active point exactly once, and after `k` calls that
/// returned a point `point_count - k` are left.
pub proof fn lemma_iteration_takes_each_point_once(t: TouchInput, ops: Seq<bool>)
    requires
        t.wf(),
    ensures
        ({
            let (f, b, rest) = take_all(t@, ops);
            &&& f + rest + b.reverse() == t@
            &&& rest.len() == t.point_count - (f.len() + b.len())
        }),
{
    t.lemma_slots_len();
    lemma_take_all_partitions(t@, ops);
}

// ── Laws ──────────────────────────────────────────────────────────────────

/// Port numbers round-trip: converting a port to its number and back gives
/// the port again, a number converts to a port only if it is that port's
/// number, and no number from [`TouchPort::MAX`] on names a port.
pub proof fn lemma_port_round_trip(p: TouchPort, v: u32)
    ensures
        port_from_raw(p.raw()) == Ok::<TouchPort, ()>(p),
        port_from_raw(v) matches Ok(q) ==> q.raw() == v,
        v >= TouchPort::MAX ==> port_from_raw(v) is Err,
        v < TouchPort::MAX ==> port_from_raw(v) is Ok,
{
}

impl TouchInput {
    /// What [`TouchInput::get`] returns for `index`.
    pub open spec fn get_spec(self, index: int) -> Option<TouchPoint> {
        if 0 <= index < self.point_count {
            Some(self.slots()[index])
        } else {
            None
        }
    }

    /// What [`TouchInput::first`] returns.
    pub open spec fn first_spec(self) -> Option<TouchPoint> {
        if self.point_count > 0 {
            Some(self.slots()[0])
        } else {
            None
        }
    }
}

/// The queries of a snapshot agree with its active points: there are
/// `point_count` of them, `get(i)` is the `i`-th of them exactly when there
/// is one, `first()` is `get(0)`, and the panel is being touched exactly when
/// there is a first point.
pub proof fn lemma_queries_agree(t: TouchInput, i: int)
    requires
        t.wf(),
    ensures
        t@.len() == t.point_count,
        t.first_spec() == t.get_spec(0),
        (t.point_count > 0) <==> t.first_spec() is Some,
        0 <= i < t@.len() ==> t.get_spec(i) == Some(t@[i]),
        !(0 <= i < t@.len()) ==> t.get_spec(i) is None,
{
    t.lemma_slots_len();
}

/// Normalising a coordinate against a range of positive width `w`: an
/// offset inside the range gives exactly `n / w`, one below it zero and one
/// above it one; the range's start gives zero and its end one.
pub proof fn lemma_clamped_quotient_positive(n: int, w: int)
    requires
        0 < w <= i16::MAX,
        fits_i16(n),
    ensures
        0 <= n <= w ==> clamped_quotient_spec(n, w) == (Ratio { num: n as i32, den: w as i32 }),
        n < 0 ==> clamped_quotient_spec(n, w) == Ratio::zero(),
        n > w ==> clamped_quotient_spec(n, w) == Ratio::one(),
        clamped_quotient_spec(0, w).same_value(Ratio::zero()),
        clamped_quotient_spec(w, w).same_value(Ratio::one()),
{
    let d = (w as i32) as int;
    assert(0 * 1 == 0 * d) by (nonlinear_arith);
}

/// On a range of zero width a coordinate past it normalises to one and any
/// other coordinate to zero; the result is a number of `[0, 1]` either way.
pub proof fn lemma_clamped_quotient_zero_width(n: int)
    ensures
        clamped_quotient_spec(n, 0) == (if n > 0 {
            Ratio::one()
        } else {
            Ratio::zero()
        }),
        clamped_quotient_spec(n, 0).in_unit(),
{
}

/// A touch at the top-left corner of the display range normalises to
/// `(0, 0)` and one at the bottom-right corner to `(1, 1)`.
pub proof fn lemma_display_corners(info: TouchPanelInfo)
    requires
        info.min_disp_x < info.max_disp_x,
        info.min_disp_y < info.max_disp_y,
        fits_i16(info.max_disp_x - info.min_disp_x),
        fits_i16(info.max_disp_y - info.min_disp_y),
    ensures
        ({
            let top_left = TouchPoint { id: 0, x: info.min_disp_x, y: info.min_disp_y, force: 0 };
            let (x, y) = top_left.normalized_display_spec(info);
            x.same_value(Ratio::zero()) && y.same_value(Ratio::zero())
        }),
        ({
            let bottom_right = TouchPoint {
                id: 0,
                x: info.max_disp_x,
                y: info.max_disp_y,
                force: 0,
            };
            let (x, y) = bottom_right.normalized_display_spec(info);
            x.same_value(Ratio::one()) && y.same_value(Ratio::one())
        }),
{
}

/// The weakest touch the panel detects has force zero and the strongest
/// force one.
pub proof fn lemma_force_extremes(info: TouchPanelInfo, p: TouchPoint)
    requires
        info.min_force < info.max_force,
    ensures
        p.force == info.min_force ==> p.normalized_force_spec(info) == (Ratio {
            num: 0,
            den: (info.max_force - info.min_force) as i32,
        }),
        p.force == info.max_force ==> p.normalized_force_spec(info).same_value(Ratio::one()),
        p.force >= info.max_force ==> p.normalized_force_spec(info).same_value(Ratio::one()),
{
}


/// A point built from a touch report carries the report's id, coordinates
/// and force unchanged.
pub proof fn lemma_point_keeps_report(report: RawTouchReport)
    ensures
        TouchPoint::from_raw_spec(report).id == report.id,
        TouchPoint::from_raw_spec(report).x == report.x,
        TouchPoint::from_raw_spec(report).y == report.y,
        TouchPoint::from_raw_spec(report).force == report.force,
{
}

/// The offset of `c` into the range `[lo, hi]` of positive width as a
/// fraction of the width: `(c - lo) / (hi - lo)` inside the range, zero
/// before it and one past it.
pub open spec fn fraction_of_range(c: int, lo: int, hi: int, r: Ratio) -> bool {
    &&& lo <= c <= hi ==> r == (Ratio { num: (c - lo) as i32, den: (hi - lo) as i32 })
    &&& c < lo ==> r == Ratio::zero()
    &&& c > hi ==> r == Ratio::one()
}

/// Over the anti-aliased range, each coordinate is measured against its own
/// axis: x against the range's width and y against its height.
pub proof fn lemma_normalized_aa_per_axis(p: TouchPoint, info: TouchPanelInfo)
    requires
        p.aa_in_range(info),
    ensures
        info.min_aa_x < info.max_aa_x ==> fraction_of_range(
            p.x as int,
            info.min_aa_x as int,
            info.max_aa_x as int,
            p.normalized_aa_spec(info).0,
        ),
        info.min_aa_y < info.max_aa_y ==> fraction_of_range(
            p.y as int,
            info.min_aa_y as int,
            info.max_aa_y as int,
            p.normalized_aa_spec(info).1,
        ),
        info.min_aa_x < info.max_aa_x && info.min_aa_y < info.max_aa_y && p.x == info.max_aa_x
            && p.y == info.max_aa_y ==> p.normalized_aa_spec(info).0.same_value(Ratio::one())
            && p.normalized_aa_spec(info).1.same_value(Ratio::one()),
{
}

/// Over the display range, each coordinate is measured against its own
/// axis: x against the range's width and y against its height.
pub proof fn lemma_normalized_display_per_axis(p: TouchPoint, info: TouchPanelInfo)
    requires
        p.display_in_range(info),
    ensures
        info.min_disp_x < info.max_disp_x ==> fraction_of_range(
            p.x as int,
            info.min_disp_x as int,
            info.max_disp_x as int,
            p.normalized_display_spec(info).0,
        ),
        info.min_disp_y < info.max_disp_y ==> fraction_of_range(
            p.y as int,
            info.min_disp_y as int,
            info.max_disp_y as int,
            p.normalized_display_spec(info).1,
        ),
{
}

/// Within the force range the normalised force is the force's offset from
/// the minimum as a fraction of the range; above the range it is one.
pub proof fn lemma_normalized_force_proportional(p: TouchPoint, info: TouchPanelInfo)
    requires
        info.min_force < info.max_force,
        info.min_force <= p.force,
    ensures
        p.force <= info.max_force ==> p.normalized_force_spec(info) == (Ratio {
            num: (p.force - info.min_force) as i32,
            den: (info.max_force - info.min_force) as i32,
        }),
        p.force > info.max_force ==> p.normalized_force_spec(info) == Ratio::one(),
{
}

} // verus!
