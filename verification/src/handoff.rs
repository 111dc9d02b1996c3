use vstd::prelude::*;
use crate::config::ServiceConfig;

verus! {

/// One step of the placeholder-to-primary window handoff. The shell
/// executes the steps strictly in the order the plan lists them.
#[derive(Clone, Copy, Debug, PartialEq, Eq, Structural)]
pub enum HandoffStep {
    /// Suspend for the given number of milliseconds.
    Delay { ms: u64 },
    /// Point the primary window's content at the service's loopback URL.
    Redirect,
    /// Hide the placeholder window.
    HidePlaceholder,
    /// Show the primary window.
    ShowPrimary,
}

/// The handoff plan: settle, redirect the primary window, let the content
/// begin loading, then swap placeholder for primary. The redirect comes
/// strictly before the hide/show pair so the placeholder never vanishes
/// ahead of the primary window requesting its content.
pub open spec fn handoff_plan_spec(c: ServiceConfig) -> Seq<HandoffStep> {
    seq![
        HandoffStep::Delay { ms: c.settle_ms },
        HandoffStep::Redirect,
        HandoffStep::Delay { ms: c.load_ms },
        HandoffStep::HidePlaceholder,
        HandoffStep::ShowPrimary,
    ]
}

/// Builds the handoff plan for the given configuration.
pub fn handoff_steps(c: &ServiceConfig) -> (plan: Vec<HandoffStep>)
    ensures
        plan@ == handoff_plan_spec(*c),
{
    let mut plan: Vec<HandoffStep> = Vec::new();
    plan.push(HandoffStep::Delay { ms: c.settle_ms });
    plan.push(HandoffStep::Redirect);
    plan.push(HandoffStep::Delay { ms: c.load_ms });
    plan.push(HandoffStep::HidePlaceholder);
    plan.push(HandoffStep::ShowPrimary);
    assert(plan@ =~= handoff_plan_spec(*c));
    plan
}

/// The window state changes of the handoff happen in a fixed order: the
/// redirect precedes every hide and show, and the placeholder is hidden
/// before the primary window is shown. In particular a hide never precedes
/// the redirect in the executed event log.
pub proof fn lemma_handoff_order(c: ServiceConfig)
    ensures
        forall|i: int, j: int|
            0 <= i < handoff_plan_spec(c).len() && 0 <= j < handoff_plan_spec(c).len()
                && handoff_plan_spec(c)[i] is Redirect
                && (handoff_plan_spec(c)[j] is HidePlaceholder
                    || handoff_plan_spec(c)[j] is ShowPrimary) ==> i < j,
        forall|i: int, j: int|
            0 <= i < handoff_plan_spec(c).len() && 0 <= j < handoff_plan_spec(c).len()
                && handoff_plan_spec(c)[i] is HidePlaceholder
                && handoff_plan_spec(c)[j] is ShowPrimary ==> i < j,
{
}

} // verus!
