use vstd::prelude::*;

use crate::frame::spec_circle_cmd;
use crate::frame::spec_circle_radius_tenths;
use crate::frame::spec_clear_cmd;
use crate::frame::spec_frame_cmds;
use crate::frame::CIRCLE_COUNT;
use crate::frame::TICKS_MAX;
use crate::renderer::initial_state;
use crate::renderer::rendered;
use crate::renderer::resized;
use crate::renderer::RendererView;

verus! {

/// The state after `count` consecutive render steps from `s`.
pub open spec fn rendered_n(s: RendererView, count: nat) -> RendererView
    decreases count,
{
    if count == 0 {
        s
    } else {
        rendered(rendered_n(s, (count - 1) as nat))
    }
}

/// A renderer constructed for a `width` by `height` surface and stepped
/// `count` times holds rotation `count`, in hundredths of a radian: every
/// render call advances it by exactly one hundredth, and nothing else moves
/// it. The surface size is untouched throughout.
pub proof fn lemma_rotation_after_renders(width: u32, height: u32, count: nat)
    requires
        count <= TICKS_MAX,
    ensures
        rendered_n(initial_state(width, height), count).ticks == count,
        rendered_n(initial_state(width, height), count).width == width,
        rendered_n(initial_state(width, height), count).height == height,
    decreases count,
{
    if count > 0 {
        lemma_rotation_after_renders(width, height, (count - 1) as nat);
    }
}

/// Every frame opens with exactly one full-surface clear, and what follows is
/// exactly `CIRCLE_COUNT` circle draws, one per index, each with its own
/// colour from the deterministic ramp: no two circles of a frame share a
/// colour.
pub proof fn lemma_frame_shape(ticks: u64)
    ensures
        spec_frame_cmds(ticks).len() == 1 + CIRCLE_COUNT,
        spec_frame_cmds(ticks)[0] == spec_clear_cmd(),
        forall|i: int|
            0 <= i < CIRCLE_COUNT ==> spec_frame_cmds(ticks)[i + 1] == spec_circle_cmd(ticks, i),
        forall|i: int|
            0 <= i < CIRCLE_COUNT ==> (#[trigger] spec_frame_cmds(ticks)[i + 1]) is Circle,
        forall|i: int, j: int|
            0 <= i < j < CIRCLE_COUNT ==> spec_circle_cmd(ticks, i) != spec_circle_cmd(ticks, j),
{
    assert forall|i: int, j: int| 0 <= i < j < CIRCLE_COUNT implies spec_circle_cmd(ticks, i)
        != spec_circle_cmd(ticks, j) by {
        assert(spec_circle_cmd(ticks, i)->Circle_red != spec_circle_cmd(ticks, j)->Circle_red);
    }
}

/// Circle radii stay positive for every index of a frame and shrink strictly
/// as the index grows: no degenerate or negative-radius circle is ever
/// requested.
pub proof fn lemma_radius_positive_and_decreasing()
    ensures
        forall|i: int| 0 <= i < CIRCLE_COUNT ==> spec_circle_radius_tenths(i) > 0,
        forall|i: int, j: int|
            0 <= i < j < CIRCLE_COUNT ==> spec_circle_radius_tenths(i) > spec_circle_radius_tenths(
                j,
            ),
{
}

/// Resizing moves only the surface size: the rotation counter after a resize
/// is exactly the one before it.
pub proof fn lemma_resize_preserves_rotation(s: RendererView, width: u32, height: u32)
    ensures
        resized(s, width, height).ticks == s.ticks,
{
}

/// Resizing twice to the same size leaves exactly the state that one resize
/// leaves.
pub proof fn lemma_resize_idempotent(s: RendererView, width: u32, height: u32)
    ensures
        resized(resized(s, width, height), width, height) == resized(s, width, height),
{
}

} // verus!
