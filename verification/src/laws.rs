//! Laws of the request lifecycle, proved over the coordinator's spec-level
//! transition [`decide`]: at-most-once dispatch under races, authorization
//! before destruction, exhaustiveness of the claim, liveness gating, and the
//! deny race.

use vstd::prelude::*;

use crate::config::ConfigData;
use crate::coordinator::{decide, spec_after_probe, spec_authorized};
use crate::coordinator::{EventData, Outcome, ProbeResult, SpecProbeStep, SpecStep};
use crate::store::RequestData;

verus! {

/// The store after a whole sequence of decision events, first event first.
pub open spec fn run_store(
    cfg: ConfigData,
    store: Map<Seq<char>, RequestData>,
    events: Seq<EventData>,
) -> Map<Seq<char>, RequestData>
    decreases events.len(),
{
    if events.len() == 0 {
        store
    } else {
        run_store(cfg, decide(cfg, store, events[0]).0, events.drop_first())
    }
}

/// How many of a sequence of decision events reach the dispatch step — the
/// only step from which the remote command dispatcher is ever invoked and
/// from which a `Resolved(Approved)` outcome can arise.
pub open spec fn dispatch_count(
    cfg: ConfigData,
    store: Map<Seq<char>, RequestData>,
    events: Seq<EventData>,
) -> nat
    decreases events.len(),
{
    if events.len() == 0 {
        0
    } else {
        (if decide(cfg, store, events[0]).1 is NeedProbe {
            1nat
        } else {
            0nat
        }) + dispatch_count(cfg, decide(cfg, store, events[0]).0, events.drop_first())
    }
}

/// A decision event never creates a record: an absent identifier stays
/// absent through any one transition.
pub proof fn lemma_decide_never_inserts(
    cfg: ConfigData,
    store: Map<Seq<char>, RequestData>,
    ev: EventData,
    k: Seq<char>,
)
    requires
        !store.contains_key(k),
    ensures
        !decide(cfg, store, ev).0.contains_key(k),
{
}

/// An absent record stays absent under any sequence of decision events.
pub proof fn lemma_absent_stays_absent(
    cfg: ConfigData,
    store: Map<Seq<char>, RequestData>,
    events: Seq<EventData>,
    k: Seq<char>,
)
    requires
        !store.contains_key(k),
    ensures
        !run_store(cfg, store, events).contains_key(k),
    decreases events.len(),
{
    if events.len() > 0 {
        lemma_decide_never_inserts(cfg, store, events[0], k);
        lemma_absent_stays_absent(cfg, decide(cfg, store, events[0]).0, events.drop_first(), k);
    }
}

/// Once a request's record is gone, no later decision event aimed at it
/// reaches the dispatch step.
pub proof fn lemma_no_record_no_dispatch(
    cfg: ConfigData,
    store: Map<Seq<char>, RequestData>,
    events: Seq<EventData>,
    id: Seq<char>,
)
    requires
        !store.contains_key(id),
        forall|i: int| 0 <= i < events.len() ==> (#[trigger] events[i]).request_id == id,
    ensures
        dispatch_count(cfg, store, events) == 0,
    decreases events.len(),
{
    if events.len() > 0 {
        assert(events[0].request_id == id);
        lemma_no_record_no_dispatch(cfg, decide(cfg, store, events[0]).0, events.drop_first(), id);
    }
}

/// At-most-once action: of any number of decision events all carrying the
/// same request identifier, run in any order, at most one reaches the
/// dispatch step, so the remote command dispatcher is invoked at most once
/// and at most one of the callers can observe `Approved`.
pub proof fn lemma_at_most_once_dispatch(
    cfg: ConfigData,
    store: Map<Seq<char>, RequestData>,
    events: Seq<EventData>,
    id: Seq<char>,
)
    requires
        forall|i: int| 0 <= i < events.len() ==> (#[trigger] events[i]).request_id == id,
    ensures
        dispatch_count(cfg, store, events) <= 1,
    decreases events.len(),
{
    if events.len() > 0 {
        assert(events[0].request_id == id);
        let store1 = decide(cfg, store, events[0]).0;
        if decide(cfg, store, events[0]).1 is NeedProbe {
            assert(!store1.contains_key(id));
            lemma_no_record_no_dispatch(cfg, store1, events.drop_first(), id);
        } else {
            lemma_at_most_once_dispatch(cfg, store1, events.drop_first(), id);
        }
    }
}

/// The coordinator itself never reports `Approved`: that outcome can only be
/// the classification of a successful dispatch, which presupposes the one
/// dispatch step counted above.
pub proof fn lemma_approval_needs_dispatch(
    cfg: ConfigData,
    store: Map<Seq<char>, RequestData>,
    ev: EventData,
)
    ensures
        (decide(cfg, store, ev).1 matches SpecStep::Done { outcome, .. } ==> outcome
            != Outcome::Approved),
{
}

/// Authorization precedes destruction: an unauthorized decision event leaves
/// the store exactly as it was, and a subsequent authorized decision for the
/// same pending request still claims its record.
pub proof fn lemma_unauthorized_preserves(
    cfg: ConfigData,
    store: Map<Seq<char>, RequestData>,
    ev: EventData,
    ev2: EventData,
)
    requires
        !spec_authorized(ev.acting_roles, ev.is_admin, cfg.whitelist),
        spec_authorized(ev2.acting_roles, ev2.is_admin, cfg.whitelist),
        ev2.request_id == ev.request_id,
        store.contains_key(ev.request_id),
    ensures
        decide(cfg, store, ev).0 == store,
        (decide(cfg, store, ev).1 == SpecStep::Done {
            outcome: Outcome::Unauthorized,
            request: Option::<RequestData>::None,
        }),
        decide(cfg, decide(cfg, store, ev).0, ev2).0 == store.remove(ev.request_id),
        (!(decide(cfg, decide(cfg, store, ev).0, ev2).1 matches SpecStep::Done {
            outcome: Outcome::AlreadyResolvedOrMissing,
            ..
        })),
{
}

/// Claim is exhaustive: a decision event that ends in any terminal outcome
/// but `Unauthorized` leaves no record for its request identifier, and none
/// reappears under any sequence of later decision events — every future
/// fetch answers that the request is gone.
pub proof fn lemma_claim_exhaustive(
    cfg: ConfigData,
    store: Map<Seq<char>, RequestData>,
    ev: EventData,
    later: Seq<EventData>,
)
    requires
        ({
            decide(cfg, store, ev).1 matches SpecStep::Done { outcome, .. } ==> outcome
                != Outcome::Unauthorized
        }),
    ensures
        !run_store(cfg, decide(cfg, store, ev).0, later).contains_key(ev.request_id),
{
    lemma_absent_stays_absent(cfg, decide(cfg, store, ev).0, later, ev.request_id);
}

/// Liveness gating: when an approval has claimed its record but the target
/// server's probe answers `NotRunning`, the next step is to abort with
/// `TargetNotRunning` — never a dispatch — and the record is gone all the
/// same.
pub proof fn lemma_liveness_gating(
    cfg: ConfigData,
    store: Map<Seq<char>, RequestData>,
    ev: EventData,
    probe: ProbeResult,
)
    requires
        decide(cfg, store, ev).1 is NeedProbe,
        probe is NotRunning,
    ensures
        ({
            let step = decide(cfg, store, ev).1;
            spec_after_probe(step->NeedProbe_request, step->NeedProbe_server, probe)
                == SpecProbeStep::Abort { outcome: Outcome::TargetNotRunning }
        }),
        !decide(cfg, store, ev).0.contains_key(ev.request_id),
{
}

/// Idempotent deny race: of two authorized deny events for one pending
/// request, whichever runs first resolves to `Denied` with the claimed
/// record, and the other observes `AlreadyResolvedOrMissing` and acts on
/// nothing.
pub proof fn lemma_deny_race(
    cfg: ConfigData,
    store: Map<Seq<char>, RequestData>,
    e1: EventData,
    e2: EventData,
)
    requires
        e1.decision is Deny,
        e2.decision is Deny,
        e1.request_id == e2.request_id,
        spec_authorized(e1.acting_roles, e1.is_admin, cfg.whitelist),
        spec_authorized(e2.acting_roles, e2.is_admin, cfg.whitelist),
        store.contains_key(e1.request_id),
    ensures
        (decide(cfg, store, e1).1 == SpecStep::Done {
            outcome: Outcome::Denied,
            request: Some(store[e1.request_id]),
        }),
        (decide(cfg, decide(cfg, store, e1).0, e2).1 == SpecStep::Done {
            outcome: Outcome::AlreadyResolvedOrMissing,
            request: Option::<RequestData>::None,
        }),
        decide(cfg, decide(cfg, store, e1).0, e2).0 == decide(cfg, store, e1).0,
{
}

} // verus!
