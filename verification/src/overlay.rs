//! The overlay controller: plans the visibility toggle of the single
//! long-lived overlay surface.  The surface itself is the caller's
//! capability; it is queried for its visibility on every toggle (a
//! cached flag could drift, since tray commands and close
//! interception also change visibility out of band).

use vstd::prelude::*;

use crate::errors::{ClassifiedError, ErrorKind, SurfaceStep};

verus! {

/// The surface operations one toggle performs, in order, given the
/// visibility the surface reports at that moment: a visible surface
/// is hidden; a hidden one is shown, centered, then focused.
pub open spec fn toggle_plan_spec(visible: bool) -> Seq<SurfaceStep> {
    if visible {
        seq![SurfaceStep::HideStep]
    } else {
        seq![SurfaceStep::ShowStep, SurfaceStep::CenterStep, SurfaceStep::FocusStep]
    }
}

/// Plan one toggle.  The caller performs the steps in order and
/// abandons the rest of the plan at the first failing step.
pub fn toggle_plan(visible: bool) -> (r: Vec<SurfaceStep>)
    ensures
        r@ == toggle_plan_spec(visible),
{
    let mut v: Vec<SurfaceStep> = Vec::new();
    if visible {
        v.push(SurfaceStep::HideStep);
    } else {
        v.push(SurfaceStep::ShowStep);
        v.push(SurfaceStep::CenterStep);
        v.push(SurfaceStep::FocusStep);
    }
    proof {
        assert(v@ =~= toggle_plan_spec(visible));
    }
    v
}

/// Visibility after a toggle whose steps all succeeded.
pub open spec fn toggled(visible: bool) -> bool {
    !visible
}

/// Two successful toggles in sequence restore the visibility they
/// started from; in particular, toggling twice from hidden ends
/// hidden.
pub proof fn lemma_toggle_round_trip(visible: bool)
    ensures
        toggled(toggled(visible)) == visible,
{
}

/// The error for a toggle that failed at `step`; the steps after it
/// were not attempted.
pub fn surface_failure(step: SurfaceStep, detail: String) -> (r: ClassifiedError)
    ensures
        r.kind == ErrorKind::SurfaceOperationFailed(step),
        r.detail@ == detail@,
{
    ClassifiedError::new(ErrorKind::SurfaceOperationFailed(step), detail)
}

/// The name of a surface step, for diagnostics.
pub fn step_name(step: SurfaceStep) -> (r: &'static str)
    ensures
        (match step {
            SurfaceStep::ShowStep => r@ == "show"@,
            SurfaceStep::CenterStep => r@ == "center"@,
            SurfaceStep::FocusStep => r@ == "focus"@,
            SurfaceStep::HideStep => r@ == "hide"@,
        }),
{
    match step {
        SurfaceStep::ShowStep => "show",
        SurfaceStep::CenterStep => "center",
        SurfaceStep::FocusStep => "focus",
        SurfaceStep::HideStep => "hide",
    }
}

} // verus!
