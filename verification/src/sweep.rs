use vstd::prelude::*;
use crate::policy::{SignalKind, TerminationPolicy};
use killport::signal::KillportSignal;

verus! {

/// One OS process found bound to the monitored port during the termination
/// sweep: its name and its process identifier. Enumerated on demand; it
/// lives only for the single sweep that produced it.
#[derive(Debug)]
pub struct KillableRecord {
    /// The process name, as bytes.
    pub name: Vec<u8>,
    /// The OS process identifier.
    pub pid: u64,
}

/// The port enumeration could not list the processes bound to the port.
/// Non-fatal: it is logged and the shutdown path proceeds to exit.
#[derive(Clone, Copy, Debug, PartialEq, Eq, Structural)]
pub struct EnumerationFailure {}

/// One entry of the termination sweep's plan, executed in order.
#[derive(Clone, Copy, Debug, PartialEq, Eq, Structural)]
pub enum SweepAction {
    /// Record that the port enumeration failed.
    LogEnumerationFailure,
    /// Deliver the policy's signal to the process with this identifier.
    Signal { pid: u64 },
    /// Exit the whole process with this code.
    Exit { code: i32 },
}

/// The signals the sweep delivers for the given enumerated processes, in
/// enumeration order: one per process whose name matches the policy, and
/// none for any other.
pub open spec fn signals_of(p: TerminationPolicy, records: Seq<KillableRecord>) -> Seq<SweepAction>
    decreases records.len(),
{
    if records.len() == 0 {
        Seq::empty()
    } else {
        let prefix = signals_of(p, records.drop_last());
        if p.spec_matches(records.last().name@) {
            prefix.push(SweepAction::Signal { pid: records.last().pid })
        } else {
            prefix
        }
    }
}

/// The whole termination sweep as a plan. On an enumeration failure the
/// failure is logged and nothing is signaled; otherwise every matching
/// process is signaled in order. Either way the plan ends by exiting the
/// process with a success code.
pub open spec fn sweep_plan_spec(
    p: TerminationPolicy,
    enumeration: Result<Vec<KillableRecord>, EnumerationFailure>,
) -> Seq<SweepAction> {
    match enumeration {
        Result::Ok(records) => signals_of(p, records@).push(SweepAction::Exit { code: 0 }),
        Result::Err(_) => seq![
            SweepAction::LogEnumerationFailure,
            SweepAction::Exit { code: 0 },
        ],
    }
}

/// Builds the termination sweep's plan from what the port enumeration
/// returned and the static policy.
pub fn plan_sweep(
    p: &TerminationPolicy,
    enumeration: &Result<Vec<KillableRecord>, EnumerationFailure>,
) -> (plan: Vec<SweepAction>)
    ensures
        plan@ == sweep_plan_spec(*p, *enumeration),
{
    let mut plan: Vec<SweepAction> = Vec::new();
    match enumeration {
        Result::Err(_) => {
            plan.push(SweepAction::LogEnumerationFailure);
            plan.push(SweepAction::Exit { code: 0 });
            assert(plan@ =~= sweep_plan_spec(*p, *enumeration));
            plan
        },
        Result::Ok(records) => {
            let n = records.len();
            let mut i: usize = 0;
            while i < n
                invariant
                    n == records@.len(),
                    i <= n,
                    plan@ == signals_of(*p, records@.take(i as int)),
                decreases n - i,
            {
                proof {
                    assert(records@.take(i as int + 1).drop_last() =~= records@.take(i as int));
                    assert(records@.take(i as int + 1).last() == records@[i as int]);
                }
                let r = records.get(i).unwrap();
                if p.matches_name(&r.name) {
                    plan.push(SweepAction::Signal { pid: r.pid });
                }
                i += 1;
            }
            proof {
                assert(records@.take(n as int) =~= records@);
            }
            plan.push(SweepAction::Exit { code: 0 });
            plan
        },
    }
}

/// Whatever the enumeration returned -- a failure included -- the sweep
/// plan is non-empty and ends by exiting the process with a success code:
/// shutdown failures are logged, never allowed to keep the process alive.
pub proof fn lemma_sweep_always_exits(
    p: TerminationPolicy,
    enumeration: Result<Vec<KillableRecord>, EnumerationFailure>,
)
    ensures
        sweep_plan_spec(p, enumeration).len() >= 1,
        sweep_plan_spec(p, enumeration).last() == (SweepAction::Exit { code: 0 }),
{
}

/// The sweep signals exactly the enumerated processes whose names match
/// the policy: every planned signal names the pid of some matching record,
/// and every matching record's pid is signaled. No process is ever
/// signaled unless its name contains a policy substring.
pub proof fn lemma_signals_exactly_matches(p: TerminationPolicy, records: Seq<KillableRecord>)
    ensures
        forall|j: int| 0 <= j < signals_of(p, records).len() ==> signals_of(p, records)[j] is Signal,
        forall|j: int|
            0 <= j < signals_of(p, records).len() ==> exists|i: int|
                0 <= i < records.len() && #[trigger] p.spec_matches(records[i].name@)
                    && #[trigger] signals_of(p, records)[j] == (SweepAction::Signal {
                    pid: records[i].pid,
                }),
        forall|i: int|
            0 <= i < records.len() && p.spec_matches(records[i].name@) ==> signals_of(
                p,
                records,
            ).contains(SweepAction::Signal { pid: records[i].pid }),
    decreases records.len(),
{
    let s = signals_of(p, records);
    if records.len() == 0 {
    } else {
        let prefix = records.drop_last();
        let sp = signals_of(p, prefix);
        lemma_signals_exactly_matches(p, prefix);
        assert(forall|i: int| 0 <= i < prefix.len() ==> records[i] == prefix[i]);
        assert forall|j: int| 0 <= j < s.len() implies s[j] is Signal by {
            if j < sp.len() {
                assert(s[j] == sp[j]);
            }
        }
        assert forall|j: int| #![trigger signals_of(p, records)[j]]
            0 <= j < s.len() implies exists|i: int|
            0 <= i < records.len() && #[trigger] p.spec_matches(records[i].name@) && s[j]
                == (SweepAction::Signal { pid: records[i].pid }) by {
            if j < sp.len() {
                assert(s[j] == sp[j]);
                let i = choose|i: int|
                    0 <= i < prefix.len() && p.spec_matches(prefix[i].name@) && sp[j]
                        == (SweepAction::Signal { pid: prefix[i].pid });
                assert(records[i] == prefix[i]);
            } else {
                let i = records.len() - 1;
                assert(p.spec_matches(records[i].name@));
                assert(s[j] == (SweepAction::Signal { pid: records[i].pid }));
            }
        }
        assert forall|i: int|
            0 <= i < records.len() && p.spec_matches(records[i].name@) implies s.contains(
            SweepAction::Signal { pid: records[i].pid },
        ) by {
            let a = SweepAction::Signal { pid: records[i].pid };
            if i < records.len() - 1 {
                assert(prefix[i] == records[i]);
                assert(sp.contains(a));
                let j = choose|j: int| 0 <= j < sp.len() && sp[j] == a;
                assert(s[j] == a);
                assert(s.contains(a));
            } else {
                assert(s.last() == a);
                assert(s.contains(a));
            }
        }
    }
}

/// Declares killport's `KillportSignal` (an OS signal, opaque here) so the
/// sweep can hand one to the shell for delivery.
#[verifier::external_type_specification]
#[verifier::external_body]
pub struct ExKillportSignal(KillportSignal);

/// Relies on killport's `KillportSignal: FromStr` (nix's `Signal::from_str`
/// underneath), which accepts the name `"SIGKILL"`; parsing that name
/// therefore succeeds.
#[verifier::external_body]
fn parse_signal(name: &str) -> (r: Option<KillportSignal>)
    ensures
        name@ == "SIGKILL"@ ==> r.is_some(),
{
    name.parse().ok()
}

/// The OS signal the sweep delivers for the given policy signal kind: the
/// forceful, non-catchable kill.
pub fn signal_for(kind: SignalKind) -> (s: KillportSignal) {
    match kind {
        SignalKind::ForceKill => {
            let r = parse_signal("SIGKILL");
            r.unwrap()
        },
    }
}

} // verus!
