//! Timers that are file descriptors: how they are set up, and how they are polled.

use vstd::prelude::*;

verus! {

/// What a failed system call was about.
#[derive(Debug, Clone, Copy, PartialEq, Eq, Structural)]
pub enum ErrorKind {
    /// A signal came in between; the call can be repeated.
    Interrupted,
    /// Anything else.
    Other,
}

/// What the reactor or the kernel reported while a descriptor is polled.
///
/// `T` is what a successful read yields, `E` the error of a failed call.
#[derive(Debug)]
pub enum FdEvent<T, E> {
    /// The reactor has no readiness to report and will wake the task.
    NotReady,
    /// The reactor failed.
    ReactorFailed(E),
    /// The descriptor is reported to be readable.
    Readable,
    /// A read went through.
    Completed(T),
    /// A read found nothing; the readiness has been cleared.
    WouldBlock,
    /// A read failed for another reason.
    ReadFailed(ErrorKind, E),
}

/// What is to be done next while a descriptor is polled.
#[derive(Debug)]
pub enum FdAction<T, E> {
    /// Tell the task to wait.
    Pending,
    /// Read from the descriptor.
    Read,
    /// Ask the reactor again.
    PollAgain,
    /// Deliver what was read.
    Ready(T),
    /// Give up with this error.
    Fail(E),
}

/// The step that follows `event` in the loop that polls a descriptor: what came in between by a
/// signal, and a read that found nothing, are tried again; everything else ends the loop or takes
/// it on.
pub open spec fn action_after<T, E>(event: FdEvent<T, E>) -> FdAction<T, E> {
    match event {
        FdEvent::NotReady => FdAction::Pending,
        FdEvent::Readable => FdAction::Read,
        FdEvent::Completed(value) => FdAction::Ready(value),
        FdEvent::WouldBlock => FdAction::PollAgain,
        FdEvent::ReactorFailed(error) => FdAction::Fail(error),
        FdEvent::ReadFailed(kind, error) => if kind == ErrorKind::Interrupted {
            FdAction::PollAgain
        } else {
            FdAction::Fail(error)
        },
    }
}

/// The step that follows `event` in the loop that polls a descriptor.
pub fn next_action<T, E>(event: FdEvent<T, E>) -> (action: FdAction<T, E>)
    ensures
        action == action_after(event),
{
    match event {
        FdEvent::NotReady => FdAction::Pending,
        FdEvent::ReactorFailed(error) => FdAction::Fail(error),
        FdEvent::Readable => FdAction::Read,
        FdEvent::Completed(value) => FdAction::Ready(value),
        FdEvent::WouldBlock => FdAction::PollAgain,
        FdEvent::ReadFailed(ErrorKind::Interrupted, _) => FdAction::PollAgain,
        FdEvent::ReadFailed(ErrorKind::Other, error) => FdAction::Fail(error),
    }
}

/// The loop that polls a descriptor goes on after `action`.
pub open spec fn goes_on<T, E>(action: FdAction<T, E>) -> bool {
    action is Read || action is PollAgain
}

/// What a loop that has come to `action` amounts to when `events` are what it meets from there on.
pub open spec fn poll_end<T, E>(action: FdAction<T, E>, events: Seq<FdEvent<T, E>>) -> FdAction<T, E>
    decreases events.len(),
{
    if goes_on(action) && events.len() > 0 {
        poll_end(action_after(events[0]), events.drop_first())
    } else {
        action
    }
}

/// The `k`-th of `events` is the first after which the loop does not go on.
pub open spec fn decided_at<T, E>(events: Seq<FdEvent<T, E>>, k: int) -> bool {
    &&& 0 <= k < events.len()
    &&& !goes_on(action_after(events[k]))
    &&& forall|i: int| 0 <= i < k ==> goes_on(action_after(#[trigger] events[i]))
}

/// The first event that decides gives the answer of a whole poll, whatever was tried again before
/// it and whatever would come after.
pub proof fn law_first_decisive_event_ends_the_poll<T, E>(
    action: FdAction<T, E>,
    events: Seq<FdEvent<T, E>>,
    k: int,
)
    requires
        goes_on(action),
        decided_at(events, k),
    ensures
        poll_end(action, events) == action_after(events[k]),
    decreases k,
{
    reveal_with_fuel(poll_end, 2);
    if k > 0 {
        let rest = events.drop_first();
        assert(goes_on(action_after(events[0])));
        assert forall|i: int| 0 <= i < k - 1 implies goes_on(action_after(#[trigger] rest[i])) by {
            assert(rest[i] == events[i + 1]);
        }
        law_first_decisive_event_ends_the_poll(action_after(events[0]), rest, k - 1);
    }
}

/// A poll that has ended met an event that decides. The task is told to wait only where the
/// reactor had no readiness to report, a value is delivered only where a read went through with
/// it, and an error is given only where the reactor or a read failed with it, a read not because
/// of a signal.
pub proof fn law_answer_of_a_poll_comes_from_an_event<T, E>(
    action: FdAction<T, E>,
    events: Seq<FdEvent<T, E>>,
)
    requires
        goes_on(action),
        !goes_on(poll_end(action, events)),
    ensures
        exists|k: int| #[trigger]
            decided_at(events, k) && match poll_end(action, events) {
                FdAction::Pending => events[k] is NotReady,
                FdAction::Ready(value) => events[k] == FdEvent::<T, E>::Completed(value),
                FdAction::Fail(error) => events[k] == FdEvent::<T, E>::ReactorFailed(error)
                    || events[k] == FdEvent::<T, E>::ReadFailed(ErrorKind::Other, error),
                _ => false,
            },
    decreases events.len(),
{
    reveal_with_fuel(poll_end, 2);
    let next = action_after(events[0]);
    if goes_on(next) {
        let rest = events.drop_first();
        law_answer_of_a_poll_comes_from_an_event(next, rest);
        let k = choose|k: int| #[trigger]
            decided_at(rest, k) && match poll_end(next, rest) {
                FdAction::Pending => rest[k] is NotReady,
                FdAction::Ready(value) => rest[k] == FdEvent::<T, E>::Completed(value),
                FdAction::Fail(error) => rest[k] == FdEvent::<T, E>::ReactorFailed(error)
                    || rest[k] == FdEvent::<T, E>::ReadFailed(ErrorKind::Other, error),
                _ => false,
            };
        assert(rest[k] == events[k + 1]);
        assert forall|i: int| 0 <= i < k + 1 implies goes_on(action_after(#[trigger] events[i])) by {
            if i > 0 {
                assert(rest[i - 1] == events[i]);
            }
        }
        assert(decided_at(events, k + 1));
    } else {
        assert(decided_at(events, 0));
    }
}

/// How many calls a loop makes that repeats its call for as long as `again` says so.
pub open spec fn calls_made(again: Seq<bool>) -> nat
    decreases again.len(),
{
    if again.len() == 0 {
        0
    } else if again[0] {
        1 + calls_made(again.drop_first())
    } else {
        1
    }
}

/// A call that is to be repeated `k` times in a row, and then not, is made `k + 1` times.
pub proof fn law_loop_stops_at_the_first_final_call(again: Seq<bool>, k: nat)
    requires
        k < again.len(),
        !again[k as int],
        forall|i: int| 0 <= i < k ==> #[trigger] again[i],
    ensures
        calls_made(again) == k + 1,
    decreases k,
{
    if k > 0 {
        let rest = again.drop_first();
        assert(again[0]);
        assert forall|i: int| 0 <= i < k - 1 implies #[trigger] rest[i] by {
            assert(rest[i] == again[i + 1]);
        }
        law_loop_stops_at_the_first_final_call(rest, (k - 1) as nat);
    }
}

/// A step of setting up a timer.
#[derive(Debug, Clone, Copy, PartialEq, Eq, Structural)]
pub enum SetupStage {
    /// The timer object is created.
    Create,
    /// The timer is programmed to run periodically.
    Program,
    /// The descriptor is registered with the reactor.
    Register,
}

/// What follows a step of setting up a timer.
#[derive(Debug, Clone, Copy, PartialEq, Eq, Structural)]
pub enum SetupAction {
    /// Go on with this step.
    Continue(SetupStage),
    /// The timer is ready for use.
    Finish,
    /// Give up, and close what has been created.
    Fail,
}

/// The step that follows `stage`, when its call returned `rc`, on the way to a timer; one that
/// runs periodically is programmed before it is registered.
pub fn setup_next(stage: SetupStage, periodic: bool, rc: i32) -> (action: SetupAction)
    ensures
        action == setup_step(stage, periodic, rc as int),
{
    if rc < 0 {
        return SetupAction::Fail;
    }
    match stage {
        SetupStage::Create => if periodic {
            SetupAction::Continue(SetupStage::Program)
        } else {
            SetupAction::Continue(SetupStage::Register)
        },
        SetupStage::Program => SetupAction::Continue(SetupStage::Register),
        SetupStage::Register => SetupAction::Finish,
    }
}

/// See [`setup_next`].
pub open spec fn setup_step(stage: SetupStage, periodic: bool, rc: int) -> SetupAction {
    if rc < 0 {
        SetupAction::Fail
    } else if stage == SetupStage::Register {
        SetupAction::Finish
    } else if stage == SetupStage::Create && periodic {
        SetupAction::Continue(SetupStage::Program)
    } else {
        SetupAction::Continue(SetupStage::Register)
    }
}

/// How a setup that has come to `action` ends when the calls still to be made return `rcs`.
pub open spec fn setup_end(action: SetupAction, periodic: bool, rcs: Seq<int>) -> SetupAction
    decreases rcs.len(),
{
    match action {
        SetupAction::Continue(stage) if rcs.len() > 0 => setup_end(
            setup_step(stage, periodic, rcs[0]),
            periodic,
            rcs.drop_first(),
        ),
        _ => action,
    }
}

/// A setup succeeds exactly where each of its calls does: creating, programming and registering a
/// periodic timer, creating and registering a one-shot one.
pub proof fn law_setup_succeeds_where_every_call_does(create: int, program: int, register: int)
    ensures
        setup_end(
            SetupAction::Continue(SetupStage::Create),
            true,
            seq![create, program, register],
        ) == if create >= 0 && program >= 0 && register >= 0 {
            SetupAction::Finish
        } else {
            SetupAction::Fail
        },
        setup_end(SetupAction::Continue(SetupStage::Create), false, seq![create, register])
            == if create >= 0 && register >= 0 {
            SetupAction::Finish
        } else {
            SetupAction::Fail
        },
{
    reveal_with_fuel(setup_end, 4);
    let three = seq![create, program, register];
    assert(three.drop_first()[0] == program);
    assert(three.drop_first().drop_first()[0] == register);
    let two = seq![create, register];
    assert(two.drop_first()[0] == register);
}

/// The flags to set on a descriptor so that it is closed on `exec`, given the flags it has and the
/// flag for this, or `None` where the flags could not be read.
pub fn cloexec_flags(flags: i32, fd_cloexec: i32) -> (set: Option<i32>)
    ensures
        set == if flags >= 0 {
            Some(flags | fd_cloexec)
        } else {
            None
        },
{
    if flags >= 0 {
        Some(flags | fd_cloexec)
    } else {
        None
    }
}

} // verus!
