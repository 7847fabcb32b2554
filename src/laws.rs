use vstd::prelude::*;

use crate::args::{
    bytes_of, first_nul_of, nul_free, Arg, DisplaySelector, CURRENT_SCREEN, CURRENT_WINDOW,
};
use crate::bridge::{
    accepts_spec, mutating_call, stage_fits, target_of, transition, Action, Event, Outcome, Stage,
};
use crate::command::{key_text, normalize_spec, text_ok, Call, Mode, RawCommand, Request};
use crate::error::IsimError;

verus! {

/// The stage an invocation of `call` reaches after the events `events`.
pub open spec fn stage_after(call: Call, events: Seq<Event>) -> Stage
    decreases events.len(),
{
    if events.len() == 0 {
        Stage::Opening
    } else {
        transition(call, stage_after(call, events.drop_last()), events.last()).0
    }
}

/// The action an invocation of `call` takes on the `k`-th of `events`.
pub open spec fn action_at(call: Call, events: Seq<Event>, k: int) -> Action {
    transition(call, stage_after(call, events.take(k)), events[k]).1
}

/// Each of `events` is one the invocation can receive when it comes.
pub open spec fn accepted(call: Call, events: Seq<Event>) -> bool {
    forall|k: int|
        0 <= k < events.len() ==> accepts_spec(
            call.command,
            #[trigger] stage_after(call, events.take(k)),
            events[k],
        )
}

proof fn lemma_stage_after_next(call: Call, events: Seq<Event>, k: int)
    requires
        0 <= k < events.len(),
    ensures
        stage_after(call, events.take(k + 1)) == transition(
            call,
            stage_after(call, events.take(k)),
            events[k],
        ).0,
{
    assert(events.take(k + 1).drop_last() =~= events.take(k));
}

/// A transition on an accepted event keeps the stage one the command can reach.
pub proof fn lemma_transition_fits(call: Call, stage: Stage, e: Event)
    requires
        stage_fits(call.command, stage),
        accepts_spec(call.command, stage, e),
    ensures
        stage_fits(call.command, transition(call, stage, e).0),
{
}

proof fn lemma_run_fits(call: Call, events: Seq<Event>, n: int)
    requires
        accepted(call, events),
        0 <= n <= events.len(),
    ensures
        stage_fits(call.command, stage_after(call, events.take(n))),
    decreases n,
{
    if n == 0 {
        assert(events.take(0) =~= Seq::<Event>::empty());
    } else {
        lemma_run_fits(call, events, n - 1);
        lemma_stage_after_next(call, events, n - 1);
        lemma_transition_fits(call, stage_after(call, events.take(n - 1)), events[n - 1]);
    }
}

/// With no display given, a request that passes validation opens the
/// default display; only its key text can make it fail.
pub proof fn law_no_display_opens_default(req: Request)
    requires
        req.display.value() is None,
    ensures
        normalize_spec(req) is Ok <==> text_ok(key_text(req.command)),
        normalize_spec(req) is Ok ==> normalize_spec(req)->Ok_0.display == DisplaySelector::Default,
{
}

/// A window-targeting command given no window reaches the backend
/// addressed to the current window.
pub proof fn law_no_window_is_current(req: Request)
    requires
        match req.command {
            RawCommand::Key { window, .. } => window.value() is None,
            RawCommand::Button { window, .. } => window.value() is None,
            RawCommand::MouseMoveRelativeToWindow { window, .. } => window.value() is None,
            _ => false,
        },
        normalize_spec(req) is Ok,
    ensures
        target_of(mutating_call(normalize_spec(req)->Ok_0.command)) == Some(CURRENT_WINDOW),
{
}

/// A key sequence whose UTF-8 form holds a terminator byte is rejected as a
/// validation error naming its first such byte, before anything else, so no
/// invocation starts and no backend call is made.
pub proof fn law_terminator_in_keys_rejected(req: Request)
    requires
        key_text(req.command) is Some,
        !nul_free(bytes_of(key_text(req.command)->0)),
    ensures
        normalize_spec(req) == Err::<Call, IsimError>(
            IsimError::Validation {
                position: first_nul_of(bytes_of(key_text(req.command)->0)) as usize,
            },
        ),
{
}

/// Omitting the screen of a pointer move, or passing no value for it, is the
/// same request as passing the current screen.
pub proof fn law_no_screen_is_current(x: i32, y: i32, display: Arg<String>)
    ensures
        normalize_spec(Request { command: RawCommand::MouseMove { x, y, screen: Arg::Missing }, display })
            == normalize_spec(
            Request {
                command: RawCommand::MouseMove { x, y, screen: Arg::Given(CURRENT_SCREEN) },
                display,
            },
        ),
        normalize_spec(Request { command: RawCommand::MouseMove { x, y, screen: Arg::NoValue }, display })
            == normalize_spec(
            Request {
                command: RawCommand::MouseMove { x, y, screen: Arg::Given(CURRENT_SCREEN) },
                display,
            },
        ),
{
}

/// A process id query never fails with a generic backend-call error, and the
/// backend's -1 answer is delivered as an invalid pid error.
pub proof fn law_pid_minus_one_is_invalid_pid(call: Call, stage: Stage, e: Event)
    requires
        call.command is GetPidWindow,
        stage_fits(call.command, stage),
        accepts_spec(call.command, stage, e),
    ensures
        match transition(call, stage, e).1 {
            Action::Finish(Err(err)) => !(err is LibraryCall),
            _ => true,
        },
        stage == Stage::Issuing && e == (Event::Returned { status: -1i32 }) ==> transition(
            call,
            stage,
            e,
        ).1 == Action::Finish(Err(IsimError::InvalidPid { pid: -1i32 })),
{
}

/// For a command confirmed in the background, a delivered status is the one
/// that the mutating call returned: that call was issued, returned the
/// status, and the wait was started, each at an earlier event.
pub proof fn law_async_status_follows_mutation(call: Call, events: Seq<Event>, k: int, s: i32)
    requires
        call.command.mode_spec() == Mode::Async,
        accepted(call, events),
        0 <= k < events.len(),
        action_at(call, events, k) == Action::Finish(Ok(Outcome::Status(s))),
    ensures
        k >= 2,
        action_at(call, events, k - 2) == Action::Issue(mutating_call(call.command)),
        events[k - 1] == (Event::Returned { status: s }),
        action_at(call, events, k - 1) is Defer,
        stage_after(call, events.take(k)) == (Stage::Waiting { status: s }),
        events[k] == Event::WaitEnded,
{
    lemma_run_fits(call, events, k);
    let st = stage_after(call, events.take(k));
    assert(accepts_spec(call.command, st, events[k]));
    assert(st == (Stage::Waiting { status: s }));
    assert(k != 0) by {
        if k == 0 {
            assert(events.take(0) =~= Seq::<Event>::empty());
        }
    }
    lemma_stage_after_next(call, events, k - 1);
    let prev = stage_after(call, events.take(k - 1));
    assert(accepts_spec(call.command, prev, events[k - 1]));
    lemma_run_fits(call, events, k - 1);
    assert(prev is Moving || prev is Issuing);
    assert(k - 1 != 0) by {
        if k - 1 == 0 {
            assert(events.take(0) =~= Seq::<Event>::empty());
        }
    }
    lemma_stage_after_next(call, events, k - 2);
    let prev2 = stage_after(call, events.take(k - 2));
    assert(accepts_spec(call.command, prev2, events[k - 2]));
    lemma_run_fits(call, events, k - 2);
}

} // verus!
