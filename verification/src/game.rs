//! One pass of the game: the fight is evaluated, those who listen are told,
//! and the turn passes on.

use vstd::prelude::*;
use crate::button::UiEvent;
use crate::combat::{tick, CombatEvaluationSystem, CombatSession, TurnOutcome};
use crate::eventbus::pending;
use crate::eventlog::{event_lines, EventLogSystem, EventLogText};

verus! {

/// The fight together with those who work on it.
#[derive(Debug)]
pub struct World {
    pub session: CombatSession,
    pub combat: CombatEvaluationSystem,
    pub event_log_system: EventLogSystem,
    pub event_log: EventLogText,
}

/// Runs one pass in its fixed order: the inputs become an intent, the intent
/// is resolved and published, the log is brought up to date, and only then
/// does the turn pass on, if an attack was resolved.
pub fn gameloop(world: &mut World, ui_events: &Vec<UiEvent>) -> (outcome: TurnOutcome)
    requires
        old(world).session@.wf(),
    ensures
        (final(world).session@, outcome) == tick(
            old(world).combat@,
            ui_events@,
            old(world).session@,
        ),
        final(world).session@.wf(),
        final(world).combat@ == old(world).combat@,
        final(world).event_log_system.position() == final(world).session@.combat_events.len(),
        final(world).event_log@ == old(world).event_log@ + event_lines(
            pending(
                final(world).session@.combat_events,
                old(world).event_log_system.position(),
            ),
        ),
{
    let outcome = world.combat.evaluate(&mut world.session, ui_events);
    world.event_log_system.run(&world.session.combat_events, &mut world.event_log);
    let ghost evaluated = world.session@;
    if outcome == TurnOutcome::Resolved {
        world.session.turn_order.advance();
    }
    assert(world.session@.monsters == evaluated.monsters);
    outcome
}

} // verus!
