//! The event-driven reconciler.
//!
//! The reconciler is a state machine. Whoever runs it performs the action
//! that a transition names and hands back what came of it as the next input:
//! after `Subscribe` that the subscription is open, after `Install` what the
//! routing table answered, after `AwaitChange` the next change of the routing
//! table or the end of the stream. No state is final.
//!
//! One subscription serves a limited number of deletions: `loop_times`
//! repairing installs at most are asked for under it, whatever the routing
//! table answers to them. The answer to the last of them, or a deletion that
//! finds the limit reached, leads to a fresh subscription.

use vstd::prelude::*;
use crate::route::{poll_action, DesiredRoute, PollAction, PollObservation, RouteEntry};

verus! {

/// A change of the routing table, with the entry that it is about.
#[derive(Clone, Debug)]
pub enum RouteChange {
    Added(RouteEntry),
    Deleted(RouteEntry),
    Changed(RouteEntry),
}

/// Why the routing table refused to install a route.
#[derive(Clone, Copy, Debug, PartialEq, Eq, Structural)]
pub enum RouteError {
    /// The process may not change the routing table.
    PermissionDenied,
    /// The route is in the table already.
    AlreadyExists,
    /// Any other failure.
    Other,
}

/// Where the reconciler stands.
#[derive(Clone, Copy, Debug, PartialEq, Eq, Structural)]
pub enum ReconcilerState {
    /// A fresh subscription to the changes of the routing table is opened.
    Subscribing,
    /// The desired route is installed once for the fresh subscription.
    Installing,
    /// The next change is awaited; `repairs` repairing installs were answered
    /// under this subscription.
    Listening { repairs: u32 },
    /// A deletion was seen and the desired route is installed again;
    /// `repairs` repairing installs were answered before under this
    /// subscription.
    Repairing { repairs: u32 },
}

/// What came of the action that the reconciler asked for.
#[derive(Debug)]
pub enum ReconcilerInput {
    /// The subscription is open.
    Subscribed,
    /// The routing table answered an install.
    Installed(Result<(), RouteError>),
    /// The routing table changed.
    Change(RouteChange),
    /// The stream of changes ended.
    StreamEnded,
}

/// What the reconciler asks for next.
#[derive(Clone, Copy, Debug, PartialEq, Eq, Structural)]
pub enum ReconcilerAction {
    /// Open a new subscription to the changes of the routing table.
    Subscribe,
    /// Install the desired route.
    Install,
    /// Wait for the next change of the routing table.
    AwaitChange,
}

/// What is put on record about one repair.
#[derive(Clone, Copy, Debug, PartialEq, Eq, Structural)]
pub enum RepairRecord {
    /// The route was installed again; `earlier` repairing installs went
    /// before this one under this subscription.
    Repaired { earlier: u32 },
    /// The install failed for want of permission.
    PermissionDenied,
    /// The install failed for another reason.
    Failed,
}

/// One step of the reconciler.
#[derive(Clone, Copy, Debug, PartialEq, Eq, Structural)]
pub struct Transition {
    pub next: ReconcilerState,
    pub action: ReconcilerAction,
    pub record: Option<RepairRecord>,
}

/// The action whose result `state` waits for.
pub open spec fn awaited(state: ReconcilerState) -> ReconcilerAction {
    match state {
        ReconcilerState::Subscribing => ReconcilerAction::Subscribe,
        ReconcilerState::Installing => ReconcilerAction::Install,
        ReconcilerState::Listening { .. } => ReconcilerAction::AwaitChange,
        ReconcilerState::Repairing { .. } => ReconcilerAction::Install,
    }
}

/// Whether `input` is a result of the action that `state` waits for.
pub open spec fn expects(state: ReconcilerState, input: ReconcilerInput) -> bool {
    match state {
        ReconcilerState::Subscribing => input is Subscribed,
        ReconcilerState::Installing => input is Installed,
        ReconcilerState::Listening { .. } => input is Change || input is StreamEnded,
        ReconcilerState::Repairing { .. } => input is Installed,
    }
}

/// The repairing installs that were asked for under the subscription of
/// `state`: those that were answered, and the one that is under way.
pub open spec fn repairs_begun(state: ReconcilerState) -> int {
    match state {
        ReconcilerState::Listening { repairs } => repairs as int,
        ReconcilerState::Repairing { repairs } => repairs + 1,
        _ => 0,
    }
}

/// The most repairing installs that one subscription serves: `loop_times`,
/// or none where that is negative.
pub open spec fn repair_limit(loop_times: i32) -> int {
    if loop_times >= 0 {
        loop_times as int
    } else {
        0
    }
}

/// Whether `state` is one that the reconciler gets into: no more repairing
/// installs were asked for under its subscription than `loop_times` allows,
/// and one that listens has not reached that limit, unless it has served
/// nothing yet.
pub open spec fn within_limit(state: ReconcilerState, loop_times: i32) -> bool {
    match state {
        ReconcilerState::Listening { repairs } => repairs == 0 || repairs < loop_times,
        ReconcilerState::Repairing { repairs } => repairs < loop_times,
        _ => true,
    }
}

/// The step that gives the subscription up for a fresh one.
pub open spec fn renew(record: Option<RepairRecord>) -> Transition {
    Transition { next: ReconcilerState::Subscribing, action: ReconcilerAction::Subscribe, record }
}

/// How the reconciler goes on once `repairs` repairing installs were
/// answered under the subscription: with `loop_times` of them or more the
/// subscription is given up for a fresh one, with fewer it listens on.
pub open spec fn go_on(repairs: int, loop_times: i32, record: Option<RepairRecord>) -> Transition {
    if repairs >= loop_times {
        renew(record)
    } else {
        Transition {
            next: ReconcilerState::Listening { repairs: repairs as u32 },
            action: ReconcilerAction::AwaitChange,
            record,
        }
    }
}

/// What is put on record about the answer to a repairing install, after
/// `repairs` earlier ones. A route that exists already is no failure and
/// leaves no record.
pub open spec fn record_of(outcome: Result<(), RouteError>, repairs: u32) -> Option<RepairRecord> {
    match outcome {
        Ok(_) => Some(RepairRecord::Repaired { earlier: repairs }),
        Err(RouteError::PermissionDenied) => Some(RepairRecord::PermissionDenied),
        Err(RouteError::AlreadyExists) => None,
        Err(RouteError::Other) => Some(RepairRecord::Failed),
    }
}

/// The step that the reconciler takes in `state` on `input`.
///
/// - `Subscribing`: once subscribed, the desired route is installed.
/// - `Installing`: whatever the routing table answers, listening begins with
///   no repairing install counted.
/// - `Listening`: an added or changed entry calls for nothing. A deleted
///   entry, whichever it is, calls for a repairing install, unless
///   `loop_times` of them or more were answered under this subscription:
///   then it calls for a fresh subscription, whose own install puts the
///   route back. The end of the stream calls for a fresh subscription.
/// - `Repairing`: every answer counts, the failures as the successes. A
///   failure is put on record, unless the route exists already. With the
///   answer number `loop_times` the subscription is given up for a fresh
///   one; before that the reconciler listens on.
///
/// An input that `state` does not wait for changes nothing: the awaited
/// action is asked for again.
pub open spec fn step_spec(state: ReconcilerState, input: ReconcilerInput, loop_times: i32) -> Transition {
    match (state, input) {
        (ReconcilerState::Subscribing, ReconcilerInput::Subscribed) => Transition {
            next: ReconcilerState::Installing,
            action: ReconcilerAction::Install,
            record: None,
        },
        (ReconcilerState::Installing, ReconcilerInput::Installed(_)) => Transition {
            next: ReconcilerState::Listening { repairs: 0 },
            action: ReconcilerAction::AwaitChange,
            record: None,
        },
        (ReconcilerState::Listening { repairs }, ReconcilerInput::Change(RouteChange::Deleted(_))) => {
            if repairs >= loop_times {
                renew(None)
            } else {
                Transition {
                    next: ReconcilerState::Repairing { repairs },
                    action: ReconcilerAction::Install,
                    record: None,
                }
            }
        },
        (ReconcilerState::Listening { .. }, ReconcilerInput::Change(_)) => Transition {
            next: state,
            action: ReconcilerAction::AwaitChange,
            record: None,
        },
        (ReconcilerState::Listening { .. }, ReconcilerInput::StreamEnded) => renew(None),
        (ReconcilerState::Repairing { repairs }, ReconcilerInput::Installed(outcome)) => go_on(
            repairs + 1,
            loop_times,
            record_of(outcome, repairs),
        ),
        _ => Transition { next: state, action: awaited(state), record: None },
    }
}

/// How many deletions among `inputs` are served by a repairing install
/// under the subscription of `state`: the steps from listening to repairing
/// that the reconciler takes on `inputs`, in order, before it gives the
/// subscription up.
pub open spec fn repairing_installs(
    state: ReconcilerState,
    inputs: Seq<ReconcilerInput>,
    loop_times: i32,
) -> nat
    decreases inputs.len(),
{
    if inputs.len() == 0 || state is Subscribing {
        0
    } else {
        let next = step_spec(state, inputs[0], loop_times).next;
        let asked: nat = if state is Listening && next is Repairing {
            1
        } else {
            0
        };
        asked + repairing_installs(next, inputs.skip(1), loop_times)
    }
}

impl ReconcilerState {
    /// The state in which the reconciler starts: it has yet to subscribe.
    pub fn start() -> (state: ReconcilerState)
        ensures
            state == ReconcilerState::Subscribing,
    {
        ReconcilerState::Subscribing
    }

    /// The action whose result this state waits for.
    pub fn awaits(&self) -> (action: ReconcilerAction)
        ensures
            action == awaited(*self),
    {
        match self {
            ReconcilerState::Subscribing => ReconcilerAction::Subscribe,
            ReconcilerState::Installing => ReconcilerAction::Install,
            ReconcilerState::Listening { .. } => ReconcilerAction::AwaitChange,
            ReconcilerState::Repairing { .. } => ReconcilerAction::Install,
        }
    }
}

/// Sorts the answer to a repairing install into what is put on record.
pub fn classify_install(outcome: &Result<(), RouteError>, repairs: u32) -> (record: Option<
    RepairRecord,
>)
    ensures
        record == record_of(*outcome, repairs),
{
    match outcome {
        Ok(_) => Some(RepairRecord::Repaired { earlier: repairs }),
        Err(RouteError::PermissionDenied) => Some(RepairRecord::PermissionDenied),
        Err(RouteError::AlreadyExists) => None,
        Err(RouteError::Other) => Some(RepairRecord::Failed),
    }
}

/// Whether `repairs` answered repairing installs are all that one
/// subscription serves.
fn limit_reached(repairs: i64, loop_times: i32) -> (reached: bool)
    ensures
        reached == (repairs >= loop_times),
{
    repairs >= loop_times as i64
}

/// Takes one step of the reconciler: from the state and what came of the
/// last action to the next state, the next action, and what to put on record.
pub fn step(state: ReconcilerState, input: &ReconcilerInput, loop_times: i32) -> (transition:
    Transition)
    ensures
        transition == step_spec(state, *input, loop_times),
{
    let renewal = Transition {
        next: ReconcilerState::Subscribing,
        action: ReconcilerAction::Subscribe,
        record: None,
    };
    match state {
        ReconcilerState::Subscribing => match input {
            ReconcilerInput::Subscribed => Transition {
                next: ReconcilerState::Installing,
                action: ReconcilerAction::Install,
                record: None,
            },
            _ => Transition { next: state, action: ReconcilerAction::Subscribe, record: None },
        },
        ReconcilerState::Installing => match input {
            ReconcilerInput::Installed(_) => Transition {
                next: ReconcilerState::Listening { repairs: 0 },
                action: ReconcilerAction::AwaitChange,
                record: None,
            },
            _ => Transition { next: state, action: ReconcilerAction::Install, record: None },
        },
        ReconcilerState::Listening { repairs } => match input {
            ReconcilerInput::Change(RouteChange::Deleted(_)) => {
                if limit_reached(repairs as i64, loop_times) {
                    renewal
                } else {
                    Transition {
                        next: ReconcilerState::Repairing { repairs },
                        action: ReconcilerAction::Install,
                        record: None,
                    }
                }
            },
            ReconcilerInput::StreamEnded => renewal,
            _ => Transition { next: state, action: ReconcilerAction::AwaitChange, record: None },
        },
        ReconcilerState::Repairing { repairs } => match input {
            ReconcilerInput::Installed(outcome) => {
                let record = classify_install(outcome, repairs);
                let answered: i64 = repairs as i64 + 1;
                if limit_reached(answered, loop_times) {
                    Transition {
                        next: ReconcilerState::Subscribing,
                        action: ReconcilerAction::Subscribe,
                        record,
                    }
                } else {
                    Transition {
                        next: ReconcilerState::Listening { repairs: answered as u32 },
                        action: ReconcilerAction::AwaitChange,
                        record,
                    }
                }
            },
            _ => Transition { next: state, action: ReconcilerAction::Install, record: None },
        },
    }
}

/// A deleted default route is answered by one repairing install and no
/// more. The deletion calls for a repairing install, or, with the limit
/// reached, for a fresh subscription. Whatever the routing table answers to
/// the repairing install, the reconciler then waits for the next change or
/// for a fresh subscription, not for another repairing install. Once an
/// install has put the desired route into the table, so that `observed` holds
/// exactly that route, a poll of the table finds nothing to repair.
pub proof fn lemma_deletion_is_repaired_once(
    repairs: u32,
    deleted: RouteEntry,
    outcome: Result<(), RouteError>,
    loop_times: i32,
    desired: DesiredRoute,
    observed: RouteEntry,
)
    requires
        desired.entry_matches(observed),
    ensures
        step_spec(
            ReconcilerState::Listening { repairs },
            ReconcilerInput::Change(RouteChange::Deleted(deleted)),
            loop_times,
        ) == if repairs < loop_times {
            Transition {
                next: ReconcilerState::Repairing { repairs },
                action: ReconcilerAction::Install,
                record: None,
            }
        } else {
            renew(None)
        },
        step_spec(
            ReconcilerState::Repairing { repairs },
            ReconcilerInput::Installed(outcome),
            loop_times,
        ).action != ReconcilerAction::Install,
        !(step_spec(
            ReconcilerState::Repairing { repairs },
            ReconcilerInput::Installed(outcome),
            loop_times,
        ).next is Repairing),
        poll_action(PollObservation::Present(observed), desired@.gateway) == PollAction::Rest,
{
}

/// The end of the stream of changes ends nothing: the reconciler subscribes
/// again, installs the desired route again, and listens again, whatever the
/// routing table answers to that install.
pub proof fn lemma_stream_end_resubscribes(
    repairs: u32,
    outcome: Result<(), RouteError>,
    loop_times: i32,
)
    ensures
        step_spec(ReconcilerState::Listening { repairs }, ReconcilerInput::StreamEnded, loop_times)
            == renew(None),
        step_spec(ReconcilerState::Subscribing, ReconcilerInput::Subscribed, loop_times) == (
        Transition {
            next: ReconcilerState::Installing,
            action: ReconcilerAction::Install,
            record: None,
        }),
        step_spec(ReconcilerState::Installing, ReconcilerInput::Installed(outcome), loop_times)
            == (Transition {
            next: ReconcilerState::Listening { repairs: 0 },
            action: ReconcilerAction::AwaitChange,
            record: None,
        }),
{
}

/// A route that is in the table already is as good as one that was just
/// installed: the reconciler goes on to the same state and the same action
/// as after a success, and puts no failure on record.
pub proof fn lemma_already_exists_is_no_failure(repairs: u32, loop_times: i32)
    ensures
        step_spec(
            ReconcilerState::Repairing { repairs },
            ReconcilerInput::Installed(Err(RouteError::AlreadyExists)),
            loop_times,
        ).next == step_spec(
            ReconcilerState::Repairing { repairs },
            ReconcilerInput::Installed(Ok(())),
            loop_times,
        ).next,
        step_spec(
            ReconcilerState::Repairing { repairs },
            ReconcilerInput::Installed(Err(RouteError::AlreadyExists)),
            loop_times,
        ).action == step_spec(
            ReconcilerState::Repairing { repairs },
            ReconcilerInput::Installed(Ok(())),
            loop_times,
        ).action,
        step_spec(
            ReconcilerState::Repairing { repairs },
            ReconcilerInput::Installed(Err(RouteError::AlreadyExists)),
            loop_times,
        ).record is None,
{
}

/// A failed install ends nothing: it is counted as any answer is, and it is
/// put on record where it failed for want of permission or for any other
/// reason, but not where the route exists already. While the limit is not
/// reached, the reconciler listens on.
pub proof fn lemma_failed_install_goes_on(repairs: u32, error: RouteError, loop_times: i32)
    requires
        repairs + 1 < loop_times,
    ensures
        step_spec(
            ReconcilerState::Repairing { repairs },
            ReconcilerInput::Installed(Err(error)),
            loop_times,
        ) == (Transition {
            next: ReconcilerState::Listening { repairs: (repairs + 1) as u32 },
            action: ReconcilerAction::AwaitChange,
            record: match error {
                RouteError::PermissionDenied => Some(RepairRecord::PermissionDenied),
                RouteError::AlreadyExists => None,
                RouteError::Other => Some(RepairRecord::Failed),
            },
        }),
{
}

/// Reaching the limit ends the subscription: when the repairing install
/// number `loop_times` is answered, whatever the answer, the reconciler asks
/// for a fresh subscription. So does a deletion that finds the limit
/// reached, which is every deletion where `loop_times` is zero or less.
pub proof fn lemma_limit_renews_subscription(
    earlier: u32,
    outcome: Result<(), RouteError>,
    answered: u32,
    deleted: RouteEntry,
    loop_times: i32,
)
    requires
        earlier + 1 >= loop_times,
        answered >= loop_times,
    ensures
        step_spec(
            ReconcilerState::Repairing { repairs: earlier },
            ReconcilerInput::Installed(outcome),
            loop_times,
        ) == renew(record_of(outcome, earlier)),
        step_spec(
            ReconcilerState::Listening { repairs: answered },
            ReconcilerInput::Change(RouteChange::Deleted(deleted)),
            loop_times,
        ) == renew(None),
{
}

/// Every step asks for the action that its next state waits for, and leads
/// to a state within the limit, under whose subscription no more repairing
/// installs were asked for than the limit allows. An input that is not
/// awaited changes nothing.
pub proof fn lemma_step_keeps_limit(state: ReconcilerState, input: ReconcilerInput, loop_times: i32)
    requires
        within_limit(state, loop_times),
    ensures
        within_limit(step_spec(state, input, loop_times).next, loop_times),
        repairs_begun(step_spec(state, input, loop_times).next) <= repair_limit(loop_times),
        step_spec(state, input, loop_times).action == awaited(
            step_spec(state, input, loop_times).next,
        ),
        !expects(state, input) ==> step_spec(state, input, loop_times).next == state,
{
}

/// One subscription serves no more repairing installs than the limit
/// allows: from a state within the limit, those that were asked for already
/// and those that any further inputs bring are together no more than
/// `loop_times`, and none where `loop_times` is negative.
pub proof fn lemma_repairs_stay_within_limit(
    state: ReconcilerState,
    inputs: Seq<ReconcilerInput>,
    loop_times: i32,
)
    requires
        within_limit(state, loop_times),
    ensures
        repairs_begun(state) + repairing_installs(state, inputs, loop_times) <= repair_limit(
            loop_times,
        ),
    decreases inputs.len(),
{
    if inputs.len() != 0 && !(state is Subscribing) {
        let next = step_spec(state, inputs[0], loop_times).next;
        let rest = inputs.skip(1);
        lemma_step_keeps_limit(state, inputs[0], loop_times);
        if next is Subscribing {
            assert(repairing_installs(next, rest, loop_times) == 0);
        } else {
            lemma_repairs_stay_within_limit(next, rest, loop_times);
            let asked: int = if state is Listening && next is Repairing {
                1
            } else {
                0
            };
            assert(repairs_begun(state) + asked <= repairs_begun(next));
        }
    }
}

/// Under a fresh subscription, whatever changes and answers come in, no
/// more than `loop_times` repairing installs are asked for.
pub proof fn lemma_fresh_subscription_is_capped(inputs: Seq<ReconcilerInput>, loop_times: i32)
    requires
        loop_times >= 0,
    ensures
        repairing_installs(ReconcilerState::Installing, inputs, loop_times) <= loop_times,
        repairing_installs(ReconcilerState::Listening { repairs: 0 }, inputs, loop_times)
            <= loop_times,
{
    lemma_repairs_stay_within_limit(ReconcilerState::Installing, inputs, loop_times);
    lemma_repairs_stay_within_limit(ReconcilerState::Listening { repairs: 0 }, inputs, loop_times);
}

} // verus!
