use vstd::prelude::*;

verus! {

/// Number of circles drawn in every frame.
pub const CIRCLE_COUNT: usize = 10;

/// Red component of the background colour (`#1a1a2e`).
pub const CLEAR_RED: u8 = 26;
/// Green component of the background colour (`#1a1a2e`).
pub const CLEAR_GREEN: u8 = 26;
/// Blue component of the background colour (`#1a1a2e`).
pub const CLEAR_BLUE: u8 = 46;

/// Phase offset between consecutive circles, in hundredths of a radian
/// (0.3 radians per circle).
pub const CIRCLE_PHASE_STEP_CENTIRADIANS: u64 = 30;

/// Radius of the first circle, in tenths of a unit (20.0 units).
pub const BASE_RADIUS_TENTHS: u16 = 200;
/// How much each circle's radius shrinks relative to the previous one, in
/// tenths of a unit (1.5 units per index).
pub const RADIUS_STEP_TENTHS: u16 = 15;

/// Red component of the first circle's colour.
pub const CIRCLE_RED_BASE: u8 = 100;
/// Red increment per circle index.
pub const CIRCLE_RED_STEP: u8 = 15;
/// Green component of the first circle's colour.
pub const CIRCLE_GREEN_BASE: u8 = 50;
/// Green increment per circle index.
pub const CIRCLE_GREEN_STEP: u8 = 10;
/// Blue component of the first circle's colour.
pub const CIRCLE_BLUE_BASE: u8 = 200;
/// Blue decrement per circle index.
pub const CIRCLE_BLUE_STEP: u8 = 5;

/// Opacity shared by all circles, in thousandths (0.8).
pub const CIRCLE_ALPHA_PERMILLE: u16 = 800;

/// Largest rotation counter for which a frame can still be computed: it
/// leaves headroom for the phase offsets of one frame's circles, so the
/// angle arithmetic below cannot overflow a `u64`.
pub const TICKS_MAX: u64 = u64::MAX - 300;

/// One drawing instruction of a frame, with every quantity a plain integer.
///
/// A `Circle` carries the angular position on the orbit rather than
/// cartesian coordinates: the host places the circle at
/// `(width / 2 + cos(angle) * 100, height / 2 + sin(angle) * 50)`,
/// with `angle` in hundredths of a radian.
#[derive(Clone, Copy, Debug, PartialEq, Eq, Structural)]
pub enum DrawCmd {
    /// Fill the whole surface with the given colour.
    Clear { red: u8, green: u8, blue: u8 },
    /// Draw one filled circle of the given colour and opacity.
    Circle {
        angle_centiradians: u64,
        radius_tenths: u16,
        red: u8,
        green: u8,
        blue: u8,
        alpha_permille: u16,
    },
}

/// Everything a host needs to draw one frame: the surface size the frame was
/// computed for, and the draw commands in the order they must be issued.
#[derive(Clone, Debug, PartialEq, Eq)]
pub struct Frame {
    pub width: u32,
    pub height: u32,
    pub commands: Vec<DrawCmd>,
}

/// The clear command that opens every frame.
pub open spec fn spec_clear_cmd() -> DrawCmd {
    DrawCmd::Clear { red: CLEAR_RED, green: CLEAR_GREEN, blue: CLEAR_BLUE }
}

/// Orbit angle of circle `i` when the rotation counter is `ticks`, in
/// hundredths of a radian.
pub open spec fn spec_circle_angle(ticks: u64, i: int) -> int {
    ticks + CIRCLE_PHASE_STEP_CENTIRADIANS * i
}

/// Radius of circle `i`, in tenths of a unit.
pub open spec fn spec_circle_radius_tenths(i: int) -> int {
    BASE_RADIUS_TENTHS - RADIUS_STEP_TENTHS * i
}

/// Red component of circle `i`'s colour.
pub open spec fn spec_circle_red(i: int) -> int {
    CIRCLE_RED_BASE + CIRCLE_RED_STEP * i
}

/// Green component of circle `i`'s colour.
pub open spec fn spec_circle_green(i: int) -> int {
    CIRCLE_GREEN_BASE + CIRCLE_GREEN_STEP * i
}

/// Blue component of circle `i`'s colour.
pub open spec fn spec_circle_blue(i: int) -> int {
    CIRCLE_BLUE_BASE - CIRCLE_BLUE_STEP * i
}

/// The command that draws circle `i` when the rotation counter is `ticks`.
pub open spec fn spec_circle_cmd(ticks: u64, i: int) -> DrawCmd {
    DrawCmd::Circle {
        angle_centiradians: spec_circle_angle(ticks, i) as u64,
        radius_tenths: spec_circle_radius_tenths(i) as u16,
        red: spec_circle_red(i) as u8,
        green: spec_circle_green(i) as u8,
        blue: spec_circle_blue(i) as u8,
        alpha_permille: CIRCLE_ALPHA_PERMILLE,
    }
}

/// The full command list of a frame: one clear, then the circles in index
/// order.
pub open spec fn spec_frame_cmds(ticks: u64) -> Seq<DrawCmd> {
    seq![spec_clear_cmd()] + Seq::new(CIRCLE_COUNT as nat, |i: int| spec_circle_cmd(ticks, i))
}

/// Computes the frame for rotation counter `ticks` on a `width` by `height`
/// surface: the clear first, then the ten circles in index order.
pub fn build_frame(ticks: u64, width: u32, height: u32) -> (frame: Frame)
    requires
        ticks <= TICKS_MAX,
    ensures
        frame.width == width,
        frame.height == height,
        frame.commands@ == spec_frame_cmds(ticks),
{
    let mut commands: Vec<DrawCmd> = Vec::new();
    commands.push(DrawCmd::Clear { red: CLEAR_RED, green: CLEAR_GREEN, blue: CLEAR_BLUE });
    let mut i: usize = 0;
    while i < CIRCLE_COUNT
        invariant
            i <= CIRCLE_COUNT,
            ticks <= TICKS_MAX,
            commands@.len() == 1 + i,
            commands@[0] == spec_clear_cmd(),
            forall|j: int| 0 <= j < i ==> commands@[j + 1] == spec_circle_cmd(ticks, j),
        decreases CIRCLE_COUNT - i,
    {
        let angle: u64 = ticks + CIRCLE_PHASE_STEP_CENTIRADIANS * (i as u64);
        let radius: u16 = BASE_RADIUS_TENTHS - RADIUS_STEP_TENTHS * (i as u16);
        let red: u8 = CIRCLE_RED_BASE + CIRCLE_RED_STEP * (i as u8);
        let green: u8 = CIRCLE_GREEN_BASE + CIRCLE_GREEN_STEP * (i as u8);
        let blue: u8 = CIRCLE_BLUE_BASE - CIRCLE_BLUE_STEP * (i as u8);
        commands.push(DrawCmd::Circle {
            angle_centiradians: angle,
            radius_tenths: radius,
            red,
            green,
            blue,
            alpha_permille: CIRCLE_ALPHA_PERMILLE,
        });
        i = i + 1;
    }
    proof {
        assert(commands@ =~= spec_frame_cmds(ticks));
    }
    Frame { width, height, commands }
}

} // verus!
