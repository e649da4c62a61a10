//! The course of a send as a whole: the operations that a device asks for
//! while the outcomes come in, and what holds of them whatever the outcomes
//! are. Every send ends and reports once; the kernel driver gets its
//! interface back; a claimed interface is released; nothing is transferred
//! without the lease, and nothing but the frame of the command.

use vstd::prelude::*;
use crate::command::{Command, CommandError, CommandResult, Phase, TransportError};
use crate::device::{next, start, write_control, ActionView, Event, SendState, INTERFACE};

verus! {

/// The state that a device in `state` is in after `events`.
pub open spec fn state_after(state: SendState, events: Seq<Event>) -> SendState
    decreases events.len(),
{
    if events.len() == 0 {
        state
    } else {
        state_after(next(state, events[0]).0, events.drop_first())
    }
}

/// The operations that a device in `state` asks for, one in answer to each of
/// `events`.
pub open spec fn trace(state: SendState, events: Seq<Event>) -> Seq<ActionView>
    decreases events.len(),
{
    if events.len() == 0 {
        Seq::empty()
    } else {
        seq![next(state, events[0]).1] + trace(next(state, events[0]).0, events.drop_first())
    }
}

/// All operations of a send of `cmd` on an idle device, the query first,
/// while `events` come in.
pub open spec fn operations(cmd: Command, events: Seq<Event>) -> Seq<ActionView> {
    seq![start(SendState::Idle, cmd).1] + trace(start(SendState::Idle, cmd).0, events)
}

/// Whether the send of `cmd` on an idle device is over after `events`.
pub open spec fn finished(cmd: Command, events: Seq<Event>) -> bool {
    state_after(start(SendState::Idle, cmd).0, events) is Idle
}

/// How many of `ops` are of the kind that `kind` tells.
pub open spec fn count(ops: Seq<ActionView>, kind: spec_fn(ActionView) -> bool) -> nat
    decreases ops.len(),
{
    if ops.len() == 0 {
        0
    } else {
        (if kind(ops[0]) {
            1nat
        } else {
            0nat
        }) + count(ops.drop_first(), kind)
    }
}

/// How often `ops` detach the kernel driver.
pub open spec fn detaches(ops: Seq<ActionView>) -> nat {
    count(ops, |op: ActionView| op is DetachKernelDriver)
}

/// How often `ops` attach the kernel driver.
pub open spec fn attaches(ops: Seq<ActionView>) -> nat {
    count(ops, |op: ActionView| op is AttachKernelDriver)
}

/// How often `ops` claim the interface.
pub open spec fn claims(ops: Seq<ActionView>) -> nat {
    count(ops, |op: ActionView| op is ClaimInterface)
}

/// How often `ops` release the interface.
pub open spec fn releases(ops: Seq<ActionView>) -> nat {
    count(ops, |op: ActionView| op is ReleaseInterface)
}

/// How many control writes are among `ops`.
pub open spec fn writes(ops: Seq<ActionView>) -> nat {
    count(ops, |op: ActionView| op is WriteControl)
}

/// How many control writes among `ops` are not the one that carries `data`.
pub open spec fn writes_other_than(ops: Seq<ActionView>, data: Seq<u8>) -> nat {
    count(ops, |op: ActionView| op is WriteControl && op != write_control(data))
}

/// How many interrupt reads are among `ops`.
pub open spec fn reads(ops: Seq<ActionView>) -> nat {
    count(ops, |op: ActionView| op is ReadInterrupt)
}

/// How often `ops` end a send.
pub open spec fn finishes(ops: Seq<ActionView>) -> nat {
    count(ops, |op: ActionView| op is Finish)
}

/// How often `ops` end a send with `result`.
pub open spec fn finishes_with(ops: Seq<ActionView>, result: CommandResult<()>) -> nat {
    count(ops, |op: ActionView| op == ActionView::Finish(result))
}

/// Whether outcome `i` of `events` is there and is a success.
pub open spec fn succeeded(events: Seq<Event>, i: int) -> bool {
    0 <= i < events.len() && events[i] == Event::Completed
}

/// The failure that an outcome stands for where it is not the one hoped for.
pub open spec fn failure(event: Event) -> TransportError {
    match event {
        Event::Failed(e) => e,
        _ => TransportError::Other,
    }
}

/// Whether the query found a kernel driver, so that the send detaches it.
pub open spec fn driver_found(events: Seq<Event>) -> bool {
    events.len() >= 1 && events[0] == Event::DriverActive(true)
}

/// Whether the send has detached the kernel driver: the query found one and
/// the detach succeeded.
pub open spec fn driver_detached(events: Seq<Event>) -> bool {
    driver_found(events) && succeeded(events, 1)
}

/// Whether the send has asked for the interface: no kernel driver held it, or
/// the one that did was detached.
pub open spec fn claim_tried(events: Seq<Event>) -> bool {
    driver_detached(events) || (events.len() >= 1 && events[0] == Event::DriverActive(false))
}

/// The place among the outcomes of the one that answers the claim.
pub open spec fn claim_index(events: Seq<Event>) -> int {
    if driver_found(events) {
        2
    } else {
        1
    }
}

/// Whether the send has acquired the lease: the claim was tried and
/// succeeded.
pub open spec fn lease_acquired_by(events: Seq<Event>) -> bool {
    claim_tried(events) && succeeded(events, claim_index(events))
}

/// Whether the send has written the frame: it held the lease, the command
/// was accepted and the control transfer succeeded.
pub open spec fn frame_written(cmd: Command, events: Seq<Event>) -> bool {
    lease_acquired_by(events) && cmd.rejection() is None && succeeded(
        events,
        claim_index(events) + 1,
    )
}

/// What a finished send of `cmd` reports. It is the first thing that went
/// wrong, in the order of the course: acquiring the lease, the command
/// itself, the write, the read. How the release and the attach went is not in
/// it.
pub open spec fn outcome(cmd: Command, events: Seq<Event>) -> CommandResult<()> {
    let claim = claim_index(events);
    if !driver_found(events) && !claim_tried(events) {
        Err(CommandError::Usb(Phase::AcquireLease, failure(events[0])))
    } else if !claim_tried(events) {
        Err(CommandError::Usb(Phase::AcquireLease, failure(events[1])))
    } else if !succeeded(events, claim) {
        Err(CommandError::Usb(Phase::AcquireLease, failure(events[claim])))
    } else if cmd.rejection() is Some {
        Err(cmd.rejection().unwrap())
    } else if !succeeded(events, claim + 1) {
        Err(CommandError::Usb(Phase::WriteControl, failure(events[claim + 1])))
    } else if !succeeded(events, claim + 2) {
        Err(CommandError::Usb(Phase::ReadInterrupt, failure(events[claim + 2])))
    } else {
        Ok(())
    }
}

/// How many outcomes a device in `state` takes at most until it is idle.
pub open spec fn steps_left(state: SendState) -> nat {
    match state {
        SendState::Idle => 0,
        SendState::ProbingDriver { .. } => 7,
        SendState::DetachingDriver { .. } => 6,
        SendState::ClaimingInterface { .. } => 5,
        SendState::Writing { .. } => 4,
        SendState::Reading { .. } => 3,
        SendState::Releasing { .. } => 2,
        SendState::Reattaching { .. } => 1,
    }
}

/// Whether the query and the detach are behind a device in `state`.
spec fn past_detach(state: SendState) -> bool {
    !(state is ProbingDriver) && !(state is DetachingDriver)
}

/// Whether the claim is behind a device in `state`: the lease is held or has
/// been given up.
spec fn past_claim(state: SendState) -> bool {
    past_detach(state) && !(state is ClaimingInterface)
}

/// Whether the transfers are behind a device in `state`.
spec fn past_transfer(state: SendState) -> bool {
    past_claim(state) && !(state is Writing) && !(state is Reading)
}

/// How often a device in `state` still asks for the kernel driver to be
/// attached until it is idle, for a state with the detach behind it.
spec fn attaches_due(state: SendState) -> nat {
    match state {
        SendState::ClaimingInterface { detached, .. } => if detached { 1 } else { 0 },
        SendState::Writing { detached } => if detached { 1 } else { 0 },
        SendState::Reading { detached } => if detached { 1 } else { 0 },
        SendState::Releasing { detached, .. } => if detached { 1 } else { 0 },
        _ => 0,
    }
}

/// How often a device in `state` still asks for the interface to be released
/// until it is idle, for a state with the claim behind it.
spec fn releases_due(state: SendState) -> nat {
    match state {
        SendState::Writing { .. } => 1,
        SendState::Reading { .. } => 1,
        _ => 0,
    }
}

/// The result that a device in `state` holds for the end of the send, if it
/// holds one.
spec fn held_result(state: SendState) -> Option<CommandResult<()>> {
    match state {
        SendState::Releasing { result, .. } => Some(result),
        SendState::Reattaching { result } => Some(result),
        _ => None,
    }
}

/// One step of a course: the first outcome gives the first operation, and the
/// rest of the course starts in the state after it.
pub proof fn lemma_course_step(
    state: SendState,
    events: Seq<Event>,
    kind: spec_fn(ActionView) -> bool,
)
    requires
        events.len() > 0,
    ensures
        state_after(state, events) == state_after(next(state, events[0]).0, events.drop_first()),
        count(trace(state, events), kind) == (if kind(next(state, events[0]).1) {
            1nat
        } else {
            0nat
        }) + count(trace(next(state, events[0]).0, events.drop_first()), kind),
{
    let first = next(state, events[0]).1;
    let rest = trace(next(state, events[0]).0, events.drop_first());
    assert((seq![first] + rest).drop_first() =~= rest);
}

/// The operations of a send are the query and then those of the course that
/// starts with the device waiting for its answer.
proof fn lemma_operations_start(cmd: Command, events: Seq<Event>, kind: spec_fn(ActionView) -> bool)
    requires
        !kind(ActionView::QueryKernelDriver { interface: INTERFACE }),
    ensures
        count(operations(cmd, events), kind) == count(
            trace(SendState::ProbingDriver { cmd }, events),
            kind,
        ),
{
    let first = start(SendState::Idle, cmd).1;
    let rest = trace(start(SendState::Idle, cmd).0, events);
    assert((seq![first] + rest).drop_first() =~= rest);
}

/// A device is idle after as many outcomes as its state has steps left, at
/// the latest.
pub proof fn lemma_course_ends(state: SendState, events: Seq<Event>)
    requires
        events.len() >= steps_left(state),
    ensures
        state_after(state, events) is Idle,
    decreases events.len(),
{
    if events.len() > 0 {
        lemma_course_ends(next(state, events[0]).0, events.drop_first());
    }
}

/// Once the detach is behind, the kernel driver is not detached again and the
/// interface is not claimed again; the driver is attached exactly once if
/// this send has detached it and not at all otherwise.
proof fn lemma_driver_settled(state: SendState, events: Seq<Event>)
    requires
        past_detach(state),
        state_after(state, events) is Idle,
    ensures
        detaches(trace(state, events)) == 0,
        attaches(trace(state, events)) == attaches_due(state),
        claims(trace(state, events)) == 0,
    decreases events.len(),
{
    if events.len() > 0 {
        lemma_course_step(state, events, |op: ActionView| op is DetachKernelDriver);
        lemma_course_step(state, events, |op: ActionView| op is AttachKernelDriver);
        lemma_course_step(state, events, |op: ActionView| op is ClaimInterface);
        lemma_driver_settled(next(state, events[0]).0, events.drop_first());
    }
}

/// Once the claim is behind, nothing is written any more, and the interface
/// is released exactly once if it is held and not at all otherwise.
proof fn lemma_interface_settled(state: SendState, events: Seq<Event>, data: Seq<u8>)
    requires
        past_claim(state),
        state_after(state, events) is Idle,
    ensures
        releases(trace(state, events)) == releases_due(state),
        writes(trace(state, events)) == 0,
        writes_other_than(trace(state, events), data) == 0,
    decreases events.len(),
{
    if events.len() > 0 {
        lemma_course_step(state, events, |op: ActionView| op is ReleaseInterface);
        lemma_course_step(state, events, |op: ActionView| op is WriteControl);
        lemma_course_step(
            state,
            events,
            |op: ActionView| op is WriteControl && op != write_control(data),
        );
        lemma_interface_settled(next(state, events[0]).0, events.drop_first(), data);
    }
}

/// Once the transfers are behind, nothing is read any more, and a device
/// that is not idle yet ends the send exactly once, with the result that it
/// holds.
proof fn lemma_result_settled(state: SendState, events: Seq<Event>, result: CommandResult<()>)
    requires
        past_transfer(state),
        state_after(state, events) is Idle,
        held_result(state) is Some ==> held_result(state) == Some(result),
    ensures
        reads(trace(state, events)) == 0,
        finishes(trace(state, events)) == (if state is Idle {
            0nat
        } else {
            1nat
        }),
        finishes_with(trace(state, events), result) == finishes(trace(state, events)),
    decreases events.len(),
{
    if events.len() > 0 {
        lemma_course_step(state, events, |op: ActionView| op is ReadInterrupt);
        lemma_course_step(state, events, |op: ActionView| op is Finish);
        lemma_course_step(state, events, |op: ActionView| op == ActionView::Finish(result));
        lemma_result_settled(next(state, events[0]).0, events.drop_first(), result);
    }
}

/// Every send ends: after seven outcomes, at the latest, the device is idle
/// again.
pub proof fn lemma_send_ends(cmd: Command, events: Seq<Event>)
    requires
        events.len() >= 7,
    ensures
        finished(cmd, events),
{
    lemma_course_ends(SendState::ProbingDriver { cmd }, events);
}

/// The kernel driver gets its interface back. A finished send has detached
/// the kernel driver once if the query found one and never otherwise; and it
/// has attached the driver again exactly once if that detach succeeded and
/// never otherwise, whatever the command was and however the claim, the
/// transfers and the release went.
pub proof fn lemma_kernel_driver_given_back(cmd: Command, events: Seq<Event>)
    requires
        finished(cmd, events),
    ensures
        detaches(operations(cmd, events)) == (if driver_found(events) {
            1nat
        } else {
            0nat
        }),
        attaches(operations(cmd, events)) == (if driver_detached(events) {
            1nat
        } else {
            0nat
        }),
{
    let is_detach = |op: ActionView| op is DetachKernelDriver;
    let is_attach = |op: ActionView| op is AttachKernelDriver;
    let probing = SendState::ProbingDriver { cmd };
    lemma_operations_start(cmd, events, is_detach);
    lemma_operations_start(cmd, events, is_attach);
    lemma_course_step(probing, events, is_detach);
    lemma_course_step(probing, events, is_attach);
    let second = next(probing, events[0]).0;
    let rest = events.drop_first();
    if second is DetachingDriver {
        lemma_course_step(second, rest, is_detach);
        lemma_course_step(second, rest, is_attach);
        lemma_driver_settled(next(second, rest[0]).0, rest.drop_first());
    } else {
        lemma_driver_settled(second, rest);
    }
}

/// A claimed interface is released. A finished send has claimed the interface
/// once if the query found no kernel driver or the one found was detached,
/// and never otherwise; and it has released the interface exactly once if
/// the claim succeeded and never otherwise.
pub proof fn lemma_interface_released(cmd: Command, events: Seq<Event>)
    requires
        finished(cmd, events),
    ensures
        claims(operations(cmd, events)) == (if claim_tried(events) {
            1nat
        } else {
            0nat
        }),
        releases(operations(cmd, events)) == (if lease_acquired_by(events) {
            1nat
        } else {
            0nat
        }),
{
    let is_claim = |op: ActionView| op is ClaimInterface;
    let is_release = |op: ActionView| op is ReleaseInterface;
    let probing = SendState::ProbingDriver { cmd };
    lemma_operations_start(cmd, events, is_claim);
    lemma_operations_start(cmd, events, is_release);
    lemma_course_step(probing, events, is_claim);
    lemma_course_step(probing, events, is_release);
    let mut state = next(probing, events[0]).0;
    let mut rest = events.drop_first();
    if state is DetachingDriver {
        lemma_course_step(state, rest, is_claim);
        lemma_course_step(state, rest, is_release);
        state = next(state, rest[0]).0;
        rest = rest.drop_first();
    }
    if state is ClaimingInterface {
        lemma_course_step(state, rest, is_claim);
        lemma_course_step(state, rest, is_release);
        state = next(state, rest[0]).0;
        rest = rest.drop_first();
    }
    lemma_driver_settled(state, rest);
    lemma_interface_settled(state, rest, cmd.frame());
}

/// Nothing is transferred without the lease, and nothing but the frame. A
/// finished send has made one control write if it acquired the lease and the
/// command was accepted, and none otherwise; that write carried the frame of
/// the command; and the acknowledgment was read once if the write succeeded,
/// and not at all otherwise.
pub proof fn lemma_transfer_only_under_lease(cmd: Command, events: Seq<Event>)
    requires
        finished(cmd, events),
    ensures
        writes(operations(cmd, events)) == (if lease_acquired_by(events) && cmd.rejection()
            is None {
            1nat
        } else {
            0nat
        }),
        writes_other_than(operations(cmd, events), cmd.frame()) == 0,
        reads(operations(cmd, events)) == (if frame_written(cmd, events) {
            1nat
        } else {
            0nat
        }),
{
    let is_write = |op: ActionView| op is WriteControl;
    let is_other = |op: ActionView| op is WriteControl && op != write_control(cmd.frame());
    let is_read = |op: ActionView| op is ReadInterrupt;
    let probing = SendState::ProbingDriver { cmd };
    lemma_operations_start(cmd, events, is_write);
    lemma_operations_start(cmd, events, is_other);
    lemma_operations_start(cmd, events, is_read);
    lemma_course_step(probing, events, is_write);
    lemma_course_step(probing, events, is_other);
    lemma_course_step(probing, events, is_read);
    let mut state = next(probing, events[0]).0;
    let mut rest = events.drop_first();
    if state is DetachingDriver {
        lemma_course_step(state, rest, is_write);
        lemma_course_step(state, rest, is_other);
        lemma_course_step(state, rest, is_read);
        state = next(state, rest[0]).0;
        rest = rest.drop_first();
    }
    if state is ClaimingInterface {
        lemma_course_step(state, rest, is_write);
        lemma_course_step(state, rest, is_other);
        lemma_course_step(state, rest, is_read);
        state = next(state, rest[0]).0;
        rest = rest.drop_first();
    }
    lemma_interface_settled(state, rest, cmd.frame());
    if state is Writing {
        lemma_course_step(state, rest, is_read);
        state = next(state, rest[0]).0;
        rest = rest.drop_first();
    }
    if state is Reading {
        lemma_course_step(state, rest, is_read);
        state = next(state, rest[0]).0;
        rest = rest.drop_first();
    }
    lemma_result_settled(
        state,
        rest,
        match held_result(state) {
            Some(result) => result,
            None => Ok(()),
        },
    );
}

/// Every finished send reports once, and what it reports is `outcome`: the
/// first thing that went wrong on the way to the acknowledgment, or success.
/// A failure to release the interface or to attach the kernel driver again is
/// never reported and never hides that result.
pub proof fn lemma_send_reports_once(cmd: Command, events: Seq<Event>)
    requires
        finished(cmd, events),
    ensures
        finishes(operations(cmd, events)) == 1,
        finishes_with(operations(cmd, events), outcome(cmd, events)) == 1,
{
    let result = outcome(cmd, events);
    let is_finish = |op: ActionView| op is Finish;
    let is_result = |op: ActionView| op == ActionView::Finish(result);
    let probing = SendState::ProbingDriver { cmd };
    lemma_operations_start(cmd, events, is_finish);
    lemma_operations_start(cmd, events, is_result);
    lemma_course_step(probing, events, is_finish);
    lemma_course_step(probing, events, is_result);
    let mut state = next(probing, events[0]).0;
    let mut rest = events.drop_first();
    if state is DetachingDriver {
        lemma_course_step(state, rest, is_finish);
        lemma_course_step(state, rest, is_result);
        state = next(state, rest[0]).0;
        rest = rest.drop_first();
    }
    if state is ClaimingInterface {
        lemma_course_step(state, rest, is_finish);
        lemma_course_step(state, rest, is_result);
        state = next(state, rest[0]).0;
        rest = rest.drop_first();
    }
    if state is Writing {
        lemma_course_step(state, rest, is_finish);
        lemma_course_step(state, rest, is_result);
        state = next(state, rest[0]).0;
        rest = rest.drop_first();
    }
    if state is Reading {
        lemma_course_step(state, rest, is_finish);
        lemma_course_step(state, rest, is_result);
        state = next(state, rest[0]).0;
        rest = rest.drop_first();
    }
    lemma_result_settled(state, rest, result);
}

/// How the release and the attach go changes nothing: whatever their
/// outcomes, the device goes on in the same way.
pub proof fn lemma_release_outcome_is_ignored(state: SendState, first: Event, second: Event)
    requires
        state is Releasing || state is Reattaching,
    ensures
        next(state, first) == next(state, second),
{
}

} // verus!
