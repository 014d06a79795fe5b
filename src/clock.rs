use vstd::prelude::*;

verus! {

/// A wall-clock reading: hour of the day, minute and second.
#[derive(Clone, Copy, Debug, PartialEq, Eq, Structural)]
pub struct WallTime {
    pub hour: u32,
    pub minute: u32,
    pub second: u32,
}

impl WallTime {
    /// A reading that a clock can show: hour below 24, minute and second below 60.
    pub open spec fn wf(self) -> bool {
        self.hour < 24 && self.minute < 60 && self.second < 60
    }

    /// Builds a reading, or `None` when a component is out of range.
    pub fn new(hour: u32, minute: u32, second: u32) -> (r: Option<WallTime>)
        ensures
            r is Some <==> (hour < 24 && minute < 60 && second < 60),
            r matches Some(t) ==> t.hour == hour && t.minute == minute && t.second == second,
    {
        if hour < 24 && minute < 60 && second < 60 {
            Some(WallTime { hour, minute, second })
        } else {
            None
        }
    }
}

/// Angle of the hour hand in tenths of a degree, clockwise from twelve:
/// `((hour mod 12) + minute / 60) * 30` degrees.
pub open spec fn hour_tenths(t: WallTime) -> int {
    ((t.hour % 12) * 60 + t.minute) * 5
}

/// Angle of the minute hand in tenths of a degree: `minute * 6` degrees.
pub open spec fn minute_tenths(t: WallTime) -> int {
    t.minute * 60
}

/// Angle of the second hand in tenths of a degree: `second * 6` degrees.
pub open spec fn second_tenths(t: WallTime) -> int {
    t.second * 60
}

/// The hour hand's angle in tenths of a degree; it sweeps between numerals
/// as the minutes advance.
pub fn hour_degrees(t: WallTime) -> (r: u32)
    requires
        t.wf(),
    ensures
        r == hour_tenths(t),
        6 * r == ((t.hour % 12) * 60 + t.minute) * 30,
        r < 3600,
{
    ((t.hour % 12) * 60 + t.minute) * 5
}

/// The minute hand's angle in tenths of a degree.
pub fn minute_degrees(t: WallTime) -> (r: u32)
    requires
        t.wf(),
    ensures
        r == minute_tenths(t),
        r == t.minute * 6 * 10,
        r < 3600,
{
    t.minute * 60
}

/// The second hand's angle in tenths of a degree.
pub fn second_degrees(t: WallTime) -> (r: u32)
    requires
        t.wf(),
    ensures
        r == second_tenths(t),
        r == t.second * 6 * 10,
        r < 3600,
{
    t.second * 60
}

/// The colour role of a drawing command; the display backend owns the palette.
#[derive(Clone, Copy, Debug, PartialEq, Eq, Structural)]
pub enum Paint {
    Face,
    Numerals,
    HourHand,
    MinuteHand,
    SecondHand,
}

/// A point relative to the face centre: an angle in tenths of a degree,
/// clockwise from twelve o'clock, and a distance in thousandths of the face radius.
#[derive(Clone, Copy, Debug, PartialEq, Eq, Structural)]
pub struct Polar {
    pub angle: u32,
    pub distance: u32,
}

/// One drawing command of the clock face. Lengths are in thousandths of the
/// face radius.
#[derive(Clone, Copy, Debug, PartialEq, Eq, Structural)]
pub enum DrawCommand {
    /// A filled circle.
    Disc { at: Polar, radius: u32, paint: Paint },
    /// A numeral, centred on `at`.
    Numeral { at: Polar, value: u32, size: u32, paint: Paint },
    /// A straight line of the given thickness.
    Line { from: Polar, to: Polar, thickness: u32, paint: Paint },
}

/// Where the face stands on a surface, in half pixels so that it is exact:
/// the centre of the surface, and the smaller half side less a 20 pixel margin.
#[derive(Clone, Copy, Debug, PartialEq, Eq, Structural)]
pub struct FaceGeometry {
    pub center_x2: i64,
    pub center_y2: i64,
    pub radius_x2: i64,
}

/// Margin between the face and the nearer edge of the surface, in pixels.
pub const FACE_MARGIN: i64 = 20;

/// Distance of the numerals from the centre, in thousandths of the radius.
pub const NUMERAL_DISTANCE: u32 = 800;

/// Size of the numerals, in thousandths of the radius.
pub const NUMERAL_SIZE: u32 = 200;

pub open spec fn face_geometry_spec(width: int, height: int) -> FaceGeometry {
    FaceGeometry {
        center_x2: width as i64,
        center_y2: height as i64,
        radius_x2: ((if width < height { width } else { height }) - 2 * FACE_MARGIN) as i64,
    }
}

/// The face's centre and radius on a surface of the given size.
pub fn face_geometry(width: i32, height: i32) -> (r: FaceGeometry)
    ensures
        r == face_geometry_spec(width as int, height as int),
{
    let side: i64 = if width < height { width as i64 } else { height as i64 };
    FaceGeometry { center_x2: width as i64, center_y2: height as i64, radius_x2: side - 2 * FACE_MARGIN }
}

/// The face centre.
pub open spec fn center() -> Polar {
    Polar { angle: 0, distance: 0 }
}

/// The numeral shown at the `i`-th of the twelve positions (12 at the top).
pub open spec fn numeral_value(i: int) -> int {
    if i == 0 { 12 } else { i }
}

/// The numeral at the `i`-th position: `i * 30` degrees, at 80% of the radius.
pub open spec fn numeral_spec(i: int) -> DrawCommand {
    DrawCommand::Numeral {
        at: Polar { angle: (i * 300) as u32, distance: NUMERAL_DISTANCE },
        value: numeral_value(i) as u32,
        size: NUMERAL_SIZE,
        paint: Paint::Numerals,
    }
}

/// A hand: a line from the centre to its tip, and a disc on the tip of half
/// the line's thickness.
pub open spec fn hand_spec(length: u32, angle: u32, thickness: u32, paint: Paint) -> Seq<DrawCommand> {
    let tip = Polar { angle, distance: length };
    seq![
        DrawCommand::Line { from: center(), to: tip, thickness, paint },
        DrawCommand::Disc { at: tip, radius: thickness / 2, paint },
    ]
}

/// The whole face for a reading: the face disc, the twelve numerals, the hour,
/// minute and second hands in that order, and two discs over the pivot.
pub open spec fn clock_scene_spec(t: WallTime) -> Seq<DrawCommand> {
    seq![DrawCommand::Disc { at: center(), radius: 1000, paint: Paint::Face }]
        + Seq::new(12, |i: int| numeral_spec(i))
        + hand_spec(500, hour_tenths(t) as u32, 30, Paint::HourHand)
        + hand_spec(650, minute_tenths(t) as u32, 20, Paint::MinuteHand)
        + hand_spec(700, second_tenths(t) as u32, 10, Paint::SecondHand)
        + seq![
            DrawCommand::Disc { at: center(), radius: 30, paint: Paint::SecondHand },
            DrawCommand::Disc { at: center(), radius: 10, paint: Paint::MinuteHand },
        ]
}

/// The command that draws one numeral.
pub fn draw_clock_number(index: u32) -> (r: DrawCommand)
    requires
        index < 12,
    ensures
        r == numeral_spec(index as int),
{
    let value: u32 = if index == 0 { 12 } else { index };
    DrawCommand::Numeral {
        at: Polar { angle: index * 300, distance: NUMERAL_DISTANCE },
        value,
        size: NUMERAL_SIZE,
        paint: Paint::Numerals,
    }
}

/// Appends the commands of one hand.
pub fn draw_clock_hand(
    commands: &mut Vec<DrawCommand>,
    length: u32,
    angle: u32,
    thickness: u32,
    paint: Paint,
)
    ensures
        final(commands)@ == old(commands)@ + hand_spec(length, angle, thickness, paint),
{
    let tip = Polar { angle, distance: length };
    commands.push(DrawCommand::Line { from: Polar { angle: 0, distance: 0 }, to: tip, thickness, paint });
    commands.push(DrawCommand::Disc { at: tip, radius: thickness / 2, paint });
    assert(final(commands)@ =~= old(commands)@ + hand_spec(length, angle, thickness, paint));
}

/// The drawing commands of the clock face for a reading. The result depends on
/// the reading alone, so equal readings give equal frames.
pub fn draw_clock(t: WallTime) -> (r: Vec<DrawCommand>)
    requires
        t.wf(),
    ensures
        r@ == clock_scene_spec(t),
{
    let mut commands: Vec<DrawCommand> = Vec::new();
    commands.push(DrawCommand::Disc { at: Polar { angle: 0, distance: 0 }, radius: 1000, paint: Paint::Face });
    let mut i: u32 = 0;
    while i < 12
        invariant
            i <= 12,
            commands@ =~= seq![DrawCommand::Disc { at: center(), radius: 1000, paint: Paint::Face }]
                + Seq::new(i as nat, |k: int| numeral_spec(k)),
        decreases 12 - i,
    {
        commands.push(draw_clock_number(i));
        i = i + 1;
    }
    draw_clock_hand(&mut commands, 500, hour_degrees(t), 30, Paint::HourHand);
    draw_clock_hand(&mut commands, 650, minute_degrees(t), 20, Paint::MinuteHand);
    draw_clock_hand(&mut commands, 700, second_degrees(t), 10, Paint::SecondHand);
    commands.push(DrawCommand::Disc { at: Polar { angle: 0, distance: 0 }, radius: 30, paint: Paint::SecondHand });
    commands.push(DrawCommand::Disc { at: Polar { angle: 0, distance: 0 }, radius: 10, paint: Paint::MinuteHand });
    assert(commands@ =~= clock_scene_spec(t));
    commands
}

/// Every numeral `k` from 1 to 12 stands at `k * 30` degrees (12 at 0 degrees),
/// at 80% of the face radius; in particular 12, 3, 6 and 9 stand at 0, 90,
/// 180 and 270 degrees.
pub proof fn lemma_numeral_placement(t: WallTime)
    ensures
        forall|k: int|
            1 <= k <= 12 ==> (#[trigger] clock_scene_spec(t)[1 + (k % 12)]) == (DrawCommand::Numeral {
                at: Polar { angle: ((k % 12) * 300) as u32, distance: 800 },
                value: k as u32,
                size: NUMERAL_SIZE,
                paint: Paint::Numerals,
            }),
        clock_scene_spec(t)[1] matches DrawCommand::Numeral { at, value, .. } && value == 12
            && at == (Polar { angle: 0, distance: 800 }),
        clock_scene_spec(t)[4] matches DrawCommand::Numeral { at, value, .. } && value == 3
            && at == (Polar { angle: 900, distance: 800 }),
        clock_scene_spec(t)[7] matches DrawCommand::Numeral { at, value, .. } && value == 6
            && at == (Polar { angle: 1800, distance: 800 }),
        clock_scene_spec(t)[10] matches DrawCommand::Numeral { at, value, .. } && value == 9
            && at == (Polar { angle: 2700, distance: 800 }),
{
    let s = clock_scene_spec(t);
    assert forall|k: int| 1 <= k <= 12 implies (#[trigger] s[1 + (k % 12)]) == (DrawCommand::Numeral {
        at: Polar { angle: ((k % 12) * 300) as u32, distance: 800 },
        value: k as u32,
        size: NUMERAL_SIZE,
        paint: Paint::Numerals,
    }) by {
        assert(s[1 + (k % 12)] == numeral_spec(k % 12));
    }
    assert(s[1] == numeral_spec(0));
    assert(s[4] == numeral_spec(3));
    assert(s[7] == numeral_spec(6));
    assert(s[10] == numeral_spec(9));
}

/// Drawing the face twice for the same reading gives the same commands.
pub proof fn lemma_clock_scene_deterministic(t1: WallTime, t2: WallTime)
    requires
        t1 == t2,
    ensures
        clock_scene_spec(t1) == clock_scene_spec(t2),
{
}

/// Each hand angle lies in `[0, 360)` degrees, and the hour hand advances
/// half a degree per minute past the hour.
pub proof fn lemma_hand_angles_in_range(t: WallTime)
    requires
        t.wf(),
    ensures
        0 <= hour_tenths(t) < 3600,
        0 <= minute_tenths(t) < 3600,
        0 <= second_tenths(t) < 3600,
        hour_tenths(t) == (t.hour % 12) * 300 + t.minute * 5,
{
}

} // verus!
