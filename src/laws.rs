use vstd::prelude::*;

use crate::error::FbError;
use crate::negotiate::{fits_double, negotiated, regions_of};
use crate::screeninfo::{FixScreeninfo, VarScreeninfo};
use crate::swapchain::{toggled, ChainView};

verus! {

/// One operation on a swap chain that can change its state: a swap with
/// the outcome of its pan-display call, or a write through the back or the
/// visible surface that leaves the given contents.
pub enum ChainStep<S> {
    Swap(bool),
    DrawBack(S),
    DrawVisible(S),
}

/// The state after one step.
pub open spec fn after_step<S>(c: ChainView<S>, step: ChainStep<S>) -> ChainView<S> {
    match step {
        ChainStep::Swap(panned) => c.after_swap(panned),
        ChainStep::DrawBack(b) => if c.is_double() {
            ChainView { back: Some(b), ..c }
        } else {
            c
        },
        ChainStep::DrawVisible(v) => ChainView { visible: v, ..c },
    }
}

/// The state after the given steps, in order.
pub open spec fn after_steps<S>(c: ChainView<S>, steps: Seq<ChainStep<S>>) -> ChainView<S>
    decreases steps.len(),
{
    if steps.len() == 0 {
        c
    } else {
        after_steps(after_step(c, steps[0]), steps.drop_first())
    }
}

/// A successful negotiation uses two surfaces exactly when device memory
/// holds two frames; then two regions are mapped, the device shows offset
/// zero and the virtual height holds both frames. Otherwise one region is
/// mapped and the geometry is left as the device reported it.
pub proof fn lemma_double_iff_memory_suffices(fix: FixScreeninfo, var: VarScreeninfo)
    requires
        negotiated(fix, var) is Ok,
    ensures
        ({
            let n = negotiated(fix, var)->Ok_0;
            &&& n.double == fits_double(fix, var)
            &&& regions_of(n).len() == (if fits_double(fix, var) { 2int } else { 1int })
            &&& n.double ==> n.vinfo.yoffset == 0
                && n.vinfo.yres_virtual as int >= 2 * n.vinfo.yres as int
            &&& !n.double ==> n.vinfo == var
        }),
{
}

/// In single mode a swap succeeds and changes nothing, whatever the device
/// would have answered.
pub proof fn lemma_single_swap_is_noop<S>(c: ChainView<S>, panned: bool)
    requires
        !c.is_double(),
    ensures
        c.after_swap(panned) == c,
        c.swap_result(panned) == Ok::<(), FbError>(()),
{
}

/// Two accepted swaps give the visible and back roles, the pan offset and
/// the shown mapping back as they were.
pub proof fn lemma_swap_twice_restores<S>(c: ChainView<S>)
    requires
        c.wf(),
        c.is_double(),
    ensures
        c.after_swap(true).after_swap(true) == c,
{
    let d = c.after_swap(true);
    assert(toggled(d.vinfo) == c.vinfo);
    assert(d.back == Some(c.visible));
    assert(c.back == Some(c.back->0));
}

/// After any swap the visible and back roles hold different mappings, the
/// device shows the visible one, and the surfaces changed roles exactly
/// when the swap succeeded.
pub proof fn lemma_swap_keeps_roles_apart<S>(c: ChainView<S>, panned: bool)
    requires
        c.wf(),
        c.is_double(),
    ensures
        ({
            let d = c.after_swap(panned);
            &&& d.wf()
            &&& d.is_double()
            &&& d.front != d.back_mapping()
            &&& d.vinfo.yoffset == (if d.front == 0 { 0 } else { d.vinfo.yres })
            &&& c.swap_result(panned) is Ok ==> d.visible == c.back->0 && d.back == Some(c.visible)
        }),
{
}

/// A refused pan leaves every role, the pan offset and the shown mapping
/// as they were, and the swap reports the refusal.
pub proof fn lemma_failed_pan_changes_nothing<S>(c: ChainView<S>)
    requires
        c.is_double(),
    ensures
        c.after_swap(false) == c,
        c.swap_result(false) == Err::<(), FbError>(FbError::PanDisplay),
{
}

/// Screen size and color depth stay the same over any run of swaps and
/// draws, and the chain stays well formed and in the same mode.
pub proof fn lemma_geometry_stable<S>(c: ChainView<S>, steps: Seq<ChainStep<S>>)
    requires
        c.wf(),
    ensures
        after_steps(c, steps).screen_size() == c.screen_size(),
        after_steps(c, steps).color_depth() == c.color_depth(),
        after_steps(c, steps).is_double() == c.is_double(),
        after_steps(c, steps).wf(),
    decreases steps.len(),
{
    if steps.len() > 0 {
        lemma_geometry_stable(after_step(c, steps[0]), steps.drop_first());
    }
}

} // verus!
