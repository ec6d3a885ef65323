use combat_core::button::{create_buttons, ButtonAction, UiEvent, UiEventType};
use combat_core::combat::{
    CombatEvaluationSystem, CombatResult, CombatSession, SpellTemplate, TurnOutcome,
};
use combat_core::eventbus::EventBus;
use combat_core::monster::{CurrMax, Monster, MonsterIdentifier, Player, UnitReference};
use combat_core::turn_order::TurnOrder;

const CLAW: u64 = 0;
const STAB: u64 = 1;
const INVENTORY: u64 = 5;

fn monster_one() -> UnitReference {
    UnitReference::Monster { id: MonsterIdentifier::new(1) }
}

fn system() -> CombatEvaluationSystem {
    CombatEvaluationSystem::new(monster_one(), "Gnoll".to_string(), SpellTemplate { damage: 12 })
}

fn session(monster_health: i32) -> CombatSession {
    let texts = vec![
        (
            "Claw".to_string(),
            ButtonAction::CastSpell { spell_template: SpellTemplate { damage: 10 } },
        ),
        (
            "Stab".to_string(),
            ButtonAction::CastSpell { spell_template: SpellTemplate { damage: 12 } },
        ),
        ("".to_string(), ButtonAction::Nothing),
        ("".to_string(), ButtonAction::Nothing),
        ("".to_string(), ButtonAction::Nothing),
        ("Inventory".to_string(), ButtonAction::Nothing),
        ("Escape".to_string(), ButtonAction::Nothing),
        ("End Turn".to_string(), ButtonAction::Nothing),
    ];
    CombatSession {
        turn_order: TurnOrder::new(vec![UnitReference::Player, monster_one()]).unwrap(),
        button_map: create_buttons(2, 4, &texts),
        player: Player { health: CurrMax { current: 200, max: 200 } },
        monsters: vec![Monster {
            id: MonsterIdentifier::new(1),
            attack: 4,
            health: CurrMax { current: monster_health, max: 50 },
        }],
        combat_events: EventBus::new(),
    }
}

fn click(target: u64) -> UiEvent {
    UiEvent { event_type: UiEventType::ClickStart, target }
}

#[test]
fn a_spell_that_does_not_kill() {
    let mut session = session(50);
    let mut reader = session.combat_events.register_reader();
    let outcome = system().run(&mut session, &vec![click(CLAW)]);
    assert_eq!(outcome, TurnOutcome::Resolved);
    assert_eq!(session.monsters[0].health, CurrMax { current: 40, max: 50 });
    assert_eq!(session.player.health, CurrMax { current: 200, max: 200 });
    assert_eq!(session.turn_order.current(), monster_one());
    let published = session.combat_events.read_since(&mut reader);
    assert_eq!(published.len(), 1);
    assert_eq!(published[0].source(), "You");
    assert_eq!(published[0].target(), monster_one());
    assert_eq!(published[0].spell_template(), SpellTemplate { damage: 10 });
    assert_eq!(published[0].results(), &vec![CombatResult::TakeDamage(10)]);
}

#[test]
fn the_monster_strikes_back() {
    let mut session = session(50);
    let system = system();
    system.run(&mut session, &vec![click(CLAW)]);
    let mut reader = session.combat_events.register_reader();
    let outcome = system.run(&mut session, &Vec::new());
    assert_eq!(outcome, TurnOutcome::Resolved);
    assert_eq!(session.player.health, CurrMax { current: 188, max: 200 });
    assert_eq!(session.monsters[0].health, CurrMax { current: 40, max: 50 });
    assert_eq!(session.turn_order.current(), UnitReference::Player);
    let published = session.combat_events.read_since(&mut reader);
    assert_eq!(published.len(), 1);
    assert_eq!(published[0].source(), "Gnoll");
    assert_eq!(published[0].target(), UnitReference::Player);
    assert_eq!(published[0].spell_template(), SpellTemplate { damage: 12 });
    assert_eq!(published[0].results(), &vec![CombatResult::TakeDamage(12)]);
}

#[test]
fn a_spell_that_kills() {
    let mut session = session(8);
    let mut reader = session.combat_events.register_reader();
    let outcome = system().run(&mut session, &vec![click(STAB)]);
    assert_eq!(outcome, TurnOutcome::Resolved);
    assert_eq!(session.monsters[0].health, CurrMax { current: 0, max: 50 });
    assert_eq!(session.turn_order.current(), monster_one());
    let published = session.combat_events.read_since(&mut reader);
    assert_eq!(published.len(), 1);
    assert_eq!(
        published[0].results(),
        &vec![CombatResult::TakeDamage(8), CombatResult::Death]
    );
}

#[test]
fn a_button_that_stands_for_nothing_is_ignored() {
    let mut session = session(50);
    let outcome = system().run(&mut session, &vec![click(77)]);
    assert_eq!(outcome, TurnOutcome::NoIntent);
    assert_eq!(session.combat_events.len(), 0);
    assert_eq!(session.player.health, CurrMax { current: 200, max: 200 });
    assert_eq!(session.monsters[0].health, CurrMax { current: 50, max: 50 });
    assert_eq!(session.turn_order.current(), UnitReference::Player);
}

#[test]
fn a_button_that_does_nothing_does_nothing() {
    let mut session = session(50);
    let outcome = system().run(&mut session, &vec![click(INVENTORY)]);
    assert_eq!(outcome, TurnOutcome::NoIntent);
    assert_eq!(session.combat_events.len(), 0);
    assert_eq!(session.turn_order.current(), UnitReference::Player);
}

#[test]
fn the_player_is_waited_for() {
    let mut session = session(50);
    let system = system();
    for _ in 0..5 {
        assert_eq!(system.run(&mut session, &Vec::new()), TurnOutcome::NoIntent);
    }
    assert_eq!(session.turn_order.current(), UnitReference::Player);
    assert_eq!(session.combat_events.len(), 0);
}

#[test]
fn only_the_start_of_a_click_counts() {
    let mut session = session(50);
    let events = vec![UiEvent { event_type: UiEventType::Other, target: CLAW }];
    assert_eq!(system().run(&mut session, &events), TurnOutcome::NoIntent);
    assert_eq!(session.monsters[0].health.current, 50);
}

#[test]
fn of_several_casts_in_one_tick_the_last_is_resolved() {
    let mut session = session(50);
    let outcome = system().run(&mut session, &vec![click(CLAW), click(STAB), click(INVENTORY)]);
    assert_eq!(outcome, TurnOutcome::Resolved);
    assert_eq!(session.monsters[0].health.current, 38);
    assert_eq!(session.combat_events.len(), 1);
}

#[test]
fn clicks_on_the_monsters_turn_are_not_kept() {
    let mut session = session(50);
    let system = system();
    system.run(&mut session, &vec![click(CLAW)]);
    assert_eq!(session.turn_order.current(), monster_one());
    // the monster acts whatever is clicked, and the click is gone afterwards
    let outcome = system.run(&mut session, &vec![click(STAB)]);
    assert_eq!(outcome, TurnOutcome::Resolved);
    assert_eq!(session.monsters[0].health.current, 40);
    assert_eq!(session.player.health.current, 188);
    assert_eq!(session.turn_order.current(), UnitReference::Player);
    assert_eq!(system.run(&mut session, &Vec::new()), TurnOutcome::NoIntent);
    assert_eq!(session.monsters[0].health.current, 40);
    assert_eq!(session.combat_events.len(), 2);
}

#[test]
fn the_monsters_turn_ends_the_same_with_and_without_clicks() {
    let system = system();
    let mut with = session(50);
    let mut without = session(50);
    system.run(&mut with, &vec![click(CLAW)]);
    system.run(&mut without, &vec![click(CLAW)]);
    let a = system.run(&mut with, &vec![click(STAB), click(77), click(CLAW)]);
    let b = system.run(&mut without, &Vec::new());
    assert_eq!(a, b);
    assert_eq!(with.player, without.player);
    assert_eq!(with.monsters, without.monsters);
    assert_eq!(with.turn_order.current(), without.turn_order.current());
    assert_eq!(with.combat_events.len(), without.combat_events.len());
}

#[test]
fn a_spell_at_a_monster_that_is_not_there_is_dropped() {
    let mut session = session(50);
    let system = CombatEvaluationSystem::new(
        UnitReference::Monster { id: MonsterIdentifier::new(2) },
        "Gnoll".to_string(),
        SpellTemplate { damage: 12 },
    );
    let outcome = system.run(&mut session, &vec![click(CLAW)]);
    assert_eq!(outcome, TurnOutcome::Dropped);
    assert_eq!(session.combat_events.len(), 0);
    assert_eq!(session.turn_order.current(), UnitReference::Player);
    assert_eq!(session.monsters[0].health.current, 50);
    assert_eq!(session.player.health.current, 200);
}

#[test]
fn of_two_monsters_with_one_id_the_first_is_hit() {
    let mut session = session(50);
    session.monsters.insert(
        0,
        Monster {
            id: MonsterIdentifier::new(3),
            attack: 1,
            health: CurrMax { current: 5, max: 5 },
        },
    );
    session.monsters.push(Monster {
        id: MonsterIdentifier::new(1),
        attack: 9,
        health: CurrMax { current: 30, max: 30 },
    });
    let outcome = system().run(&mut session, &vec![click(CLAW)]);
    assert_eq!(outcome, TurnOutcome::Resolved);
    assert_eq!(session.monsters[0].health.current, 5);
    assert_eq!(session.monsters[1].health.current, 40);
    assert_eq!(session.monsters[2].health.current, 30);
    assert_eq!(session.monsters[2].attack, 9);
}

#[test]
fn the_dead_keep_their_turn() {
    let mut session = session(8);
    let system = system();
    assert_eq!(system.run(&mut session, &vec![click(STAB)]), TurnOutcome::Resolved);
    assert_eq!(session.monsters[0].health.current, 0);
    // the dead monster still attacks
    assert_eq!(system.run(&mut session, &Vec::new()), TurnOutcome::Resolved);
    assert_eq!(session.player.health.current, 188);
    // and can be hit again, for nothing
    let mut reader = session.combat_events.register_reader();
    assert_eq!(system.run(&mut session, &vec![click(CLAW)]), TurnOutcome::Resolved);
    let published = session.combat_events.read_since(&mut reader);
    assert_eq!(
        published[0].results(),
        &vec![CombatResult::TakeDamage(0), CombatResult::Death]
    );
    assert_eq!(session.monsters[0].health, CurrMax { current: 0, max: 50 });
}

#[test]
fn the_player_can_be_the_target_of_their_own_spell() {
    let mut session = session(50);
    let system = CombatEvaluationSystem::new(
        UnitReference::Player,
        "Gnoll".to_string(),
        SpellTemplate { damage: 12 },
    );
    assert_eq!(system.run(&mut session, &vec![click(CLAW)]), TurnOutcome::Resolved);
    assert_eq!(session.player.health.current, 190);
    assert_eq!(session.monsters[0].health.current, 50);
}

#[test]
fn the_player_dies_of_the_last_blow() {
    let mut session = session(50);
    session.player.health.current = 12;
    session.turn_order.advance();
    let mut reader = session.combat_events.register_reader();
    assert_eq!(system().run(&mut session, &Vec::new()), TurnOutcome::Resolved);
    assert_eq!(session.player.health, CurrMax { current: 0, max: 200 });
    let published = session.combat_events.read_since(&mut reader);
    assert_eq!(
        published[0].results(),
        &vec![CombatResult::TakeDamage(12), CombatResult::Death]
    );
}

#[test]
fn dispatch_yields_an_intent_without_results() {
    let session = session(50);
    let system = system();
    let intent = system
        .dispatch(&session.turn_order, &session.button_map, &vec![click(STAB)])
        .unwrap();
    assert_eq!(intent.source(), "You");
    assert_eq!(intent.target(), monster_one());
    assert_eq!(intent.spell_template(), SpellTemplate { damage: 12 });
    assert!(intent.results().is_empty());
    assert!(system.dispatch(&session.turn_order, &session.button_map, &vec![click(70)]).is_none());
}

#[test]
fn dispatch_yields_nothing_when_it_is_not_the_players_turn() {
    let mut session = session(50);
    session.turn_order.advance();
    let system = system();
    assert!(system
        .dispatch(&session.turn_order, &session.button_map, &vec![click(STAB)])
        .is_none());
}

#[test]
fn the_scripted_intent_is_aimed_at_the_player() {
    let intent = system().scripted_intent();
    assert_eq!(intent.source(), "Gnoll");
    assert_eq!(intent.target(), UnitReference::Player);
    assert_eq!(intent.spell_template(), SpellTemplate { damage: 12 });
    assert!(intent.results().is_empty());
}
