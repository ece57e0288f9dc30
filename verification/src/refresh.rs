//! The loop that keeps one notification in step with the player.
//!
//! The loop reacts to what it is told and orders what is to be done; the
//! caller waits for the player's events, shows or updates the notification
//! as ordered, and reports the identity that the notification service gave
//! it. Only the first rendering creates a notification. Every later one
//! replaces it in place.

use vstd::prelude::*;

verus! {

/// Where the loop stands.
#[derive(Debug, Clone, Copy, PartialEq, Eq, Structural)]
pub enum LoopState {
    /// Nothing has been shown yet.
    Initializing,
    /// The notification `id` is on screen.
    Active { id: u32 },
    /// The stream of events has ended.
    Terminal,
}

/// What the loop is told.
#[derive(Debug, Clone, Copy, PartialEq, Eq, Structural)]
pub enum LoopEvent {
    /// The connection to the player stands.
    Started,
    /// The notification service has shown what was ordered, under `id`.
    Shown { id: u32 },
    /// The player's playback changed.
    PlayerChanged,
    /// Something else about the player changed.
    OtherChanged,
    /// The stream of events has ended.
    StreamEnded,
}

/// What the loop orders.
#[derive(Debug, Clone, Copy, PartialEq, Eq, Structural)]
pub enum LoopAction {
    /// Take a snapshot, render it and show it as a new notification.
    ShowNew,
    /// Take a snapshot, render it and put it in the place of `id`.
    Update { id: u32 },
    /// Nothing is to be done.
    Nothing,
    /// Leave the loop.
    Exit,
}

/// The state that follows `event` in `state`, and what is to be done.
pub open spec fn step_spec(state: LoopState, event: LoopEvent) -> (LoopState, LoopAction) {
    match state {
        LoopState::Initializing => match event {
            LoopEvent::Started => (LoopState::Initializing, LoopAction::ShowNew),
            LoopEvent::Shown { id } => (LoopState::Active { id }, LoopAction::Nothing),
            LoopEvent::StreamEnded => (LoopState::Terminal, LoopAction::Exit),
            _ => (LoopState::Initializing, LoopAction::Nothing),
        },
        LoopState::Active { id } => match event {
            LoopEvent::PlayerChanged => (LoopState::Active { id }, LoopAction::Update { id }),
            LoopEvent::Shown { id: shown } => (LoopState::Active { id: shown }, LoopAction::Nothing),
            LoopEvent::StreamEnded => (LoopState::Terminal, LoopAction::Exit),
            _ => (LoopState::Active { id }, LoopAction::Nothing),
        },
        LoopState::Terminal => (LoopState::Terminal, LoopAction::Exit),
    }
}

/// The state that follows `event` in `state`, and what is to be done.
///
/// At the start a snapshot is shown as a new notification, whose identity
/// the loop keeps once it is reported. From then on a change of playback
/// orders an update of that notification, other changes order nothing, and
/// the end of the stream ends the loop.
pub fn step(state: LoopState, event: LoopEvent) -> (r: (LoopState, LoopAction))
    ensures
        r == step_spec(state, event),
{
    match state {
        LoopState::Initializing => match event {
            LoopEvent::Started => (LoopState::Initializing, LoopAction::ShowNew),
            LoopEvent::Shown { id } => (LoopState::Active { id }, LoopAction::Nothing),
            LoopEvent::StreamEnded => (LoopState::Terminal, LoopAction::Exit),
            _ => (LoopState::Initializing, LoopAction::Nothing),
        },
        LoopState::Active { id } => match event {
            LoopEvent::PlayerChanged => (LoopState::Active { id }, LoopAction::Update { id }),
            LoopEvent::Shown { id: shown } => (LoopState::Active { id: shown }, LoopAction::Nothing),
            LoopEvent::StreamEnded => (LoopState::Terminal, LoopAction::Exit),
            _ => (LoopState::Active { id }, LoopAction::Nothing),
        },
        LoopState::Terminal => (LoopState::Terminal, LoopAction::Exit),
    }
}

/// The state after `events`, taken in order from `state`, and the orders
/// that they drew.
pub open spec fn run(state: LoopState, events: Seq<LoopEvent>) -> (LoopState, Seq<LoopAction>)
    decreases events.len(),
{
    if events.len() == 0 {
        (state, Seq::empty())
    } else {
        let (before, orders) = run(state, events.drop_last());
        let (after, order) = step_spec(before, events.last());
        (after, orders.push(order))
    }
}

/// How many of `orders` ask for a new notification.
pub open spec fn created(orders: Seq<LoopAction>) -> nat
    decreases orders.len(),
{
    if orders.len() == 0 {
        0
    } else if orders.last() is ShowNew {
        created(orders.drop_last()) + 1
    } else {
        created(orders.drop_last())
    }
}

/// How many of `orders` ask for the notification `id` to be replaced.
pub open spec fn updated(orders: Seq<LoopAction>, id: u32) -> nat
    decreases orders.len(),
{
    if orders.len() == 0 {
        0
    } else if orders.last() == (LoopAction::Update { id }) {
        updated(orders.drop_last(), id) + 1
    } else {
        updated(orders.drop_last(), id)
    }
}

/// What the loop is told over a session in which playback changes `n`
/// times: the start, the first notification shown as `id`, and for each
/// change the event and the update shown, again as `id`, since the service
/// replaces in place.
pub open spec fn session(id: u32, n: nat) -> Seq<LoopEvent>
    decreases n,
{
    if n == 0 {
        seq![LoopEvent::Started, LoopEvent::Shown { id }]
    } else {
        session(id, (n - 1) as nat).push(LoopEvent::PlayerChanged).push(LoopEvent::Shown { id })
    }
}

/// Taking one more event: the run so far, then one step.
proof fn lemma_run_push(state: LoopState, events: Seq<LoopEvent>, event: LoopEvent)
    ensures
        run(state, events.push(event)).0 == step_spec(run(state, events).0, event).0,
        run(state, events.push(event)).1 == run(state, events).1.push(
            step_spec(run(state, events).0, event).1,
        ),
{
    assert(events.push(event).drop_last() =~= events);
}

/// Counting one more order.
proof fn lemma_count_push(orders: Seq<LoopAction>, order: LoopAction, id: u32)
    ensures
        created(orders.push(order)) == created(orders) + if order is ShowNew {
            1nat
        } else {
            0nat
        },
        updated(orders.push(order), id) == updated(orders, id) + if order == (LoopAction::Update {
            id,
        }) {
            1nat
        } else {
            0nat
        },
{
    assert(orders.push(order).drop_last() =~= orders);
}

/// Over `n` changes of playback one notification is created and `n`
/// renderings replace it: the loop orders a new notification once, at the
/// start, and orders exactly `n` updates, each of the identity that the
/// first one was given.
pub proof fn lemma_single_identity(id: u32, n: nat)
    ensures
        run(LoopState::Initializing, session(id, n)).0 == (LoopState::Active { id }),
        created(run(LoopState::Initializing, session(id, n)).1) == 1,
        updated(run(LoopState::Initializing, session(id, n)).1, id) == n,
        forall|k: int|
            0 <= k < run(LoopState::Initializing, session(id, n)).1.len()
                ==> (#[trigger] run(LoopState::Initializing, session(id, n)).1[k]
                matches LoopAction::Update { id: replaced } ==> replaced == id),
    decreases n,
{
    let start = LoopState::Initializing;
    let none = Seq::<LoopEvent>::empty();
    if n == 0 {
        let shown = LoopEvent::Shown { id };
        assert(session(id, 0) =~= none.push(LoopEvent::Started).push(shown));
        lemma_run_push(start, none, LoopEvent::Started);
        lemma_run_push(start, none.push(LoopEvent::Started), shown);
        lemma_count_push(run(start, none).1, LoopAction::ShowNew, id);
        lemma_count_push(run(start, none.push(LoopEvent::Started)).1, LoopAction::Nothing, id);
    } else {
        lemma_single_identity(id, (n - 1) as nat);
        let base = session(id, (n - 1) as nat);
        let changed = base.push(LoopEvent::PlayerChanged);
        lemma_run_push(start, base, LoopEvent::PlayerChanged);
        lemma_run_push(start, changed, LoopEvent::Shown { id });
        lemma_count_push(run(start, base).1, LoopAction::Update { id }, id);
        lemma_count_push(run(start, changed).1, LoopAction::Nothing, id);
    }
}

/// Once a notification is on screen, no event makes the loop order a
/// second one: whatever the loop is told, it orders updates, nothing, or
/// the exit.
pub proof fn lemma_never_a_second_notification(id: u32, events: Seq<LoopEvent>)
    ensures
        run(LoopState::Active { id }, events).0 !is Initializing,
        created(run(LoopState::Active { id }, events).1) == 0,
    decreases events.len(),
{
    if events.len() > 0 {
        lemma_never_a_second_notification(id, events.drop_last());
        let before = run(LoopState::Active { id }, events.drop_last());
        let after = run(LoopState::Active { id }, events);
        assert(after.1.drop_last() =~= before.1);
    }
}

} // verus!
