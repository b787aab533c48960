//! Laws of the context-currency state machine.
//!
//! The proof functions here state, over the transition functions of
//! [`crate::context`], what the machine guarantees across whole runs: the
//! currency reported after any correctly-alternating run of transitions, the
//! round trip of recorded dimensions, the discarding of updates made while
//! not current, and the determinism of rebinding an already-current context.

use vstd::prelude::*;

use crate::context::BindingVerdict;
use crate::context::ContextError;
use crate::context::ContextState;
use crate::context::Surface;
use crate::context::spec_dimensions;
use crate::context::spec_make_current;
use crate::context::spec_make_not_current;
use crate::context::spec_set_dimensions;

verus! {

/// One transition request of the context lifecycle, together with the
/// platform verdicts that decided it.
#[derive(Clone, Copy, Debug, PartialEq, Eq, Structural)]
pub enum LifecycleEvent {
    /// A `make_current` request for `surface`, with the platform's verdicts
    /// on the release of any existing binding and on the new acquire.
    MakeCurrent {
        /// The surface the context was to be bound to.
        surface: Surface,
        /// The platform's verdict on releasing an existing binding.
        release: BindingVerdict,
        /// The platform's verdict on acquiring the new binding.
        acquire: BindingVerdict,
    },
    /// A `make_not_current` request, with the platform's verdict on it.
    MakeNotCurrent {
        /// The platform's verdict on releasing the binding.
        verdict: BindingVerdict,
    },
}

/// The state and result of applying one lifecycle event.
pub open spec fn spec_apply_event(s: ContextState, e: LifecycleEvent) -> (
    ContextState,
    Result<(), ContextError>,
) {
    match e {
        LifecycleEvent::MakeCurrent { surface, release, acquire } => spec_make_current(
            s,
            surface,
            release,
            acquire,
        ),
        LifecycleEvent::MakeNotCurrent { verdict } => spec_make_not_current(s, verdict),
    }
}

/// The state after applying a whole sequence of lifecycle events in order.
pub open spec fn spec_run(s: ContextState, events: Seq<LifecycleEvent>) -> ContextState
    decreases events.len(),
{
    if events.len() == 0 {
        s
    } else {
        spec_run(spec_apply_event(s, events[0]).0, events.drop_first())
    }
}

/// Whether a sequence of lifecycle events alternates correctly from `s`:
/// each `make_current` is requested while not current and each
/// `make_not_current` while current.
pub open spec fn spec_alternates(s: ContextState, events: Seq<LifecycleEvent>) -> bool
    decreases events.len(),
{
    events.len() == 0 || {
        &&& (events[0] is MakeCurrent ==> s is NotCurrent)
        &&& (events[0] is MakeNotCurrent ==> s is Current)
        &&& spec_alternates(spec_apply_event(s, events[0]).0, events.drop_first())
    }
}

/// The currency that the most recent successful transition of a run
/// established: current after a successful `make_current`, not current after
/// a successful `make_not_current`, and the initial currency when no
/// transition of the run succeeded.
pub open spec fn spec_currency_after(s: ContextState, events: Seq<LifecycleEvent>) -> bool
    decreases events.len(),
{
    if events.len() == 0 {
        s is Current
    } else {
        if spec_apply_event(spec_run(s, events.drop_last()), events.last()).1 is Ok {
            events.last() is MakeCurrent
        } else {
            spec_currency_after(s, events.drop_last())
        }
    }
}

/// Running a sequence extended by one event is applying that event to the
/// state the shorter run reached.
proof fn lemma_run_push(s: ContextState, events: Seq<LifecycleEvent>, e: LifecycleEvent)
    ensures
        spec_run(s, events.push(e)) == spec_apply_event(spec_run(s, events), e).0,
    decreases events.len(),
{
    if events.len() == 0 {
        assert(events.push(e)[0] == e);
        assert(events.push(e).drop_first() =~= Seq::<LifecycleEvent>::empty());
        assert(spec_run(spec_apply_event(s, e).0, events.push(e).drop_first())
            == spec_apply_event(s, e).0);
    } else {
        assert(events.push(e)[0] == events[0]);
        assert(events.push(e).drop_first() =~= events.drop_first().push(e));
        lemma_run_push(spec_apply_event(s, events[0]).0, events.drop_first(), e);
    }
}

/// A prefix of a correctly-alternating sequence alternates correctly.
proof fn lemma_alternates_drop_last(s: ContextState, events: Seq<LifecycleEvent>)
    requires
        events.len() > 0,
        spec_alternates(s, events),
    ensures
        spec_alternates(s, events.drop_last()),
        (events.last() is MakeCurrent ==> spec_run(s, events.drop_last()) is NotCurrent),
        (events.last() is MakeNotCurrent ==> spec_run(s, events.drop_last()) is Current),
    decreases events.len(),
{
    if events.len() == 1 {
        assert(events.drop_last() =~= Seq::<LifecycleEvent>::empty());
        assert(events[0] == events.last());
    } else {
        let s1 = spec_apply_event(s, events[0]).0;
        assert(events.drop_last().drop_first() =~= events.drop_first().drop_last());
        assert(events.drop_first().last() == events.last());
        lemma_alternates_drop_last(s1, events.drop_first());
    }
}

/// After any correctly-alternating run of `make_current` /
/// `make_not_current` transitions, the context is current exactly when the
/// most recent successful transition of the run was a `make_current` — and
/// keeps its initial currency when no transition of the run succeeded.
pub proof fn lemma_currency_reflects_last_success(s: ContextState, events: Seq<LifecycleEvent>)
    requires
        spec_alternates(s, events),
    ensures
        (spec_run(s, events) is Current) == spec_currency_after(s, events),
    decreases events.len(),
{
    if events.len() > 0 {
        let prefix = events.drop_last();
        let e = events.last();
        let before = spec_run(s, prefix);
        lemma_alternates_drop_last(s, events);
        lemma_currency_reflects_last_success(s, prefix);
        assert(events =~= prefix.push(e));
        lemma_run_push(s, prefix, e);
    }
}

/// Setting the framebuffer dimensions while current and reading them back
/// returns exactly the dimensions that were set.
pub proof fn lemma_dimensions_round_trip(s: ContextState, d: (u32, u32))
    requires
        s is Current,
    ensures
        spec_dimensions(spec_set_dimensions(s, d)) == Ok::<(u32, u32), ContextError>(d),
{
}

/// Dimension updates made while not current are discarded, not queued: the
/// state is left unchanged, and after the next successful `make_current` the
/// recorded dimensions are those of the newly bound surface, with no trace
/// of the discarded update.
pub proof fn lemma_update_while_not_current_discarded(
    s: ContextState,
    d: (u32, u32),
    surface: Surface,
    release: BindingVerdict,
)
    requires
        s is NotCurrent,
    ensures
        spec_set_dimensions(s, d) == s,
        spec_dimensions(
            spec_make_current(
                spec_set_dimensions(s, d),
                surface,
                release,
                BindingVerdict::Accepted,
            ).0,
        ) == Ok::<(u32, u32), ContextError>((surface.width, surface.height)),
{
}

/// Requesting `make_current` on an already-current context is deterministic
/// and never corrupts state: both platform steps succeeding rebinds the
/// context to the new surface; a rejected release leaves the old binding and
/// its recorded dimensions untouched; a release that succeeds followed by a
/// rejected acquire leaves the context not current.  Each failure is
/// reported as a platform binding failure.
pub proof fn lemma_rebind_deterministic(
    s: ContextState,
    surface: Surface,
    release: BindingVerdict,
    acquire: BindingVerdict,
)
    requires
        s is Current,
    ensures
        ({
            let (s2, r) = spec_make_current(s, surface, release, acquire);
            match (release, acquire) {
                (BindingVerdict::Accepted, BindingVerdict::Accepted) => s2 == (ContextState::Current {
                    width: surface.width,
                    height: surface.height,
                }) && r == Ok::<(), ContextError>(()),
                (BindingVerdict::Rejected, _) => s2 == s && r == Err::<(), ContextError>(
                    ContextError::PlatformBindingFailure,
                ),
                (BindingVerdict::Accepted, BindingVerdict::Rejected) => s2
                    == ContextState::NotCurrent && r == Err::<(), ContextError>(
                    ContextError::PlatformBindingFailure,
                ),
            }
        }),
{
}

} // verus!
