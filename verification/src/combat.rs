//! Combat intents, their resolution against a target, and the outcome that is
//! handed on.

use vstd::prelude::*;
use vstd::string::*;
use crate::button::{last_cast, ButtonAction, ButtonMap, UiEvent};
use crate::eventbus::EventBus;
use crate::monster::{CurrMax, Monster, MonsterIdentifier, Player, UnitReference};
use crate::turn_order::{rotate_left, TurnOrder};

verus! {

/// What a spell does when it lands.
#[derive(Debug, Clone, Copy, PartialEq, Eq, Structural)]
pub struct SpellTemplate {
    pub damage: u32,
}

/// One thing that happened to the target of an attack.
#[derive(Debug, Clone, Copy, PartialEq, Eq, Structural)]
pub enum CombatResult {
    TakeDamage(u32),
    Death,
}

/// What a combat event says, as plain values.
pub struct CombatEventView {
    pub source: Seq<char>,
    pub target: UnitReference,
    pub spell_template: SpellTemplate,
    pub results: Seq<CombatResult>,
}

/// An attack: first an intent without results, then, once resolved, the
/// record of what it did.
#[derive(Debug)]
pub struct CombatEvent {
    source: String,
    target: UnitReference,
    spell_template: SpellTemplate,
    results: Vec<CombatResult>,
}

impl View for CombatEvent {
    type V = CombatEventView;

    closed spec fn view(&self) -> CombatEventView {
        CombatEventView {
            source: self.source@,
            target: self.target,
            spell_template: self.spell_template,
            results: self.results@,
        }
    }
}

impl CombatEvent {
    /// An intent: nothing has happened yet.
    pub fn new(source: String, target: UnitReference, spell_template: SpellTemplate) -> (event:
        Self)
        ensures
            event@ == (CombatEventView {
                source: source@,
                target,
                spell_template,
                results: Seq::empty(),
            }),
    {
        Self { source, target, spell_template, results: Vec::new() }
    }

    /// Who attacks.
    pub fn source(&self) -> (source: &str)
        ensures
            source@ == self@.source,
    {
        self.source.as_str()
    }

    /// Who is attacked.
    pub fn target(&self) -> (target: UnitReference)
        ensures
            target == self@.target,
    {
        self.target
    }

    /// The spell that is cast.
    pub fn spell_template(&self) -> (spell_template: SpellTemplate)
        ensures
            spell_template == self@.spell_template,
    {
        self.spell_template
    }

    /// What the attack did, in the order in which it happened; empty until
    /// the event has been resolved.
    pub fn results(&self) -> (results: &Vec<CombatResult>)
        ensures
            results@ == self@.results,
    {
        &self.results
    }

    pub(crate) fn add_result(&mut self, result: CombatResult)
        ensures
            final(self)@ == (CombatEventView {
                results: old(self)@.results.push(result),
                ..old(self)@
            }),
    {
        self.results.push(result);
    }
}

/// The health left after `damage` is taken from `current`: never below zero.
pub open spec fn health_after(current: int, damage: int) -> int {
    if current - damage > 0 {
        current - damage
    } else {
        0
    }
}

/// What an attack of `damage` does to a target that has `current` health: a
/// survivor takes the damage in full, anyone else takes what health was left
/// and dies.
pub open spec fn damage_results(current: int, damage: int) -> Seq<CombatResult> {
    if current - damage > 0 {
        seq![CombatResult::TakeDamage(damage as u32)]
    } else {
        seq![CombatResult::TakeDamage(current as u32), CombatResult::Death]
    }
}

/// The event `before` once its spell has hit a target with `current` health.
pub open spec fn resolved(before: CombatEventView, current: int) -> CombatEventView {
    CombatEventView {
        results: before.results + damage_results(current, before.spell_template.damage as int),
        ..before
    }
}

/// Takes the event's damage out of `health` and writes down in the event what
/// that did.
fn resolve_damage(health: &mut CurrMax, event: &mut CombatEvent)
    requires
        old(health).current >= 0,
    ensures
        final(health).max == old(health).max,
        final(health).current == health_after(
            old(health).current as int,
            old(event)@.spell_template.damage as int,
        ),
        0 <= final(health).current <= old(health).current,
        final(event)@ == resolved(old(event)@, old(health).current as int),
{
    let damage: u32 = event.spell_template.damage;
    let remaining: i64 = health.current as i64 - damage as i64;
    if remaining > 0 {
        event.add_result(CombatResult::TakeDamage(damage));
        health.current = remaining as i32;
        assert(final(event)@.results =~= old(event)@.results + damage_results(
            old(health).current as int,
            damage as int,
        ));
    } else {
        event.add_result(CombatResult::TakeDamage(health.current as u32));
        event.add_result(CombatResult::Death);
        health.current = 0;
        assert(final(event)@.results =~= old(event)@.results + damage_results(
            old(health).current as int,
            damage as int,
        ));
    }
}

/// The player is hit by the event's spell.
pub fn handle_player_target(player: &mut Player, event: &mut CombatEvent)
    requires
        old(player).health.current >= 0,
    ensures
        final(player).health.max == old(player).health.max,
        final(player).health.current == health_after(
            old(player).health.current as int,
            old(event)@.spell_template.damage as int,
        ),
        0 <= final(player).health.current <= old(player).health.current,
        final(event)@ == resolved(old(event)@, old(player).health.current as int),
{
    resolve_damage(&mut player.health, event);
}

/// The monster is hit by the event's spell.
pub fn handle_monster_target(monster: &mut Monster, event: &mut CombatEvent)
    requires
        old(monster).health.current >= 0,
    ensures
        final(monster).id == old(monster).id,
        final(monster).attack == old(monster).attack,
        final(monster).health.max == old(monster).health.max,
        final(monster).health.current == health_after(
            old(monster).health.current as int,
            old(event)@.spell_template.damage as int,
        ),
        0 <= final(monster).health.current <= old(monster).health.current,
        final(event)@ == resolved(old(event)@, old(monster).health.current as int),
{
    resolve_damage(&mut monster.health, event);
}

/// Everything a fight consists of, owned in one place and handed to whoever
/// has to work on it.
#[derive(Debug)]
pub struct CombatSession {
    pub turn_order: TurnOrder,
    pub button_map: ButtonMap,
    pub player: Player,
    pub monsters: Vec<Monster>,
    pub combat_events: EventBus,
}

/// A fight as plain values.
#[verifier::ext_equal]
pub struct SessionView {
    pub turn_order: Seq<UnitReference>,
    pub button_map: Map<u64, ButtonAction>,
    pub player: Player,
    pub monsters: Seq<Monster>,
    pub combat_events: Seq<CombatEventView>,
}

impl View for CombatSession {
    type V = SessionView;

    open spec fn view(&self) -> SessionView {
        SessionView {
            turn_order: self.turn_order@,
            button_map: self.button_map@,
            player: self.player,
            monsters: self.monsters@,
            combat_events: self.combat_events@,
        }
    }
}

impl CombatSession {
    /// Says whether nobody's health is below zero, which is what a tick asks
    /// of a fight.
    pub fn is_well_formed(&self) -> (ok: bool)
        ensures
            ok == self@.wf(),
    {
        if self.player.health.current < 0 {
            return false;
        }
        let mut i: usize = 0;
        while i < self.monsters.len()
            invariant
                i <= self.monsters@.len(),
                forall|j: int| 0 <= j < i ==> (#[trigger] self.monsters@[j]).health.current >= 0,
            decreases self.monsters@.len() - i,
        {
            if self.monsters[i].health.current < 0 {
                assert(self@.monsters[i as int].health.current < 0);
                return false;
            }
            i = i + 1;
        }
        true
    }
}

impl SessionView {
    /// Nobody's health is below zero.
    pub open spec fn wf(self) -> bool {
        &&& self.player.health.current >= 0
        &&& forall|i: int|
            0 <= i < self.monsters.len() ==> (#[trigger] self.monsters[i]).health.current >= 0
    }

    /// Everybody's health is between zero and its maximum.
    pub open spec fn healths_valid(self) -> bool {
        &&& self.player.health.wf()
        &&& forall|i: int|
            0 <= i < self.monsters.len() ==> (#[trigger] self.monsters[i]).health.wf()
    }
}

/// What the one who resolves combat has been told beforehand: whom the
/// player's spells are aimed at, and what a monster does when its turn comes.
pub struct Script {
    pub spell_target: UnitReference,
    pub monster_name: Seq<char>,
    pub monster_spell: SpellTemplate,
}

/// How a tick ended.
#[derive(Debug, Clone, Copy, PartialEq, Eq, Structural)]
pub enum TurnOutcome {
    /// It is the player's turn and no spell was cast: nothing happened.
    NoIntent,
    /// A spell was aimed at a monster that is not there: nothing happened.
    Dropped,
    /// An attack was resolved and its outcome published.
    Resolved,
}

/// The health pair `health` after `damage`.
pub open spec fn hit(health: CurrMax, damage: u32) -> CurrMax {
    CurrMax { current: health_after(health.current as int, damage as int) as i32, ..health }
}

/// Where in `monsters` the first monster with the id `id` stands.
pub open spec fn monster_index(monsters: Seq<Monster>, id: MonsterIdentifier) -> Option<int>
    decreases monsters.len(),
{
    if monsters.len() == 0 {
        None
    } else if monsters[0].id == id {
        Some(0)
    } else {
        match monster_index(monsters.drop_first(), id) {
            Some(i) => Some(i + 1),
            None => None,
        }
    }
}

/// The intent that the player's inputs of one tick amount to: the last spell
/// cast, aimed where the script says.
pub open spec fn player_intent(
    script: Script,
    button_map: Map<u64, ButtonAction>,
    ui_events: Seq<UiEvent>,
) -> Option<CombatEventView> {
    match last_cast(button_map, ui_events) {
        Some(spell_template) => Some(
            CombatEventView {
                source: "You"@,
                target: script.spell_target,
                spell_template,
                results: Seq::empty(),
            },
        ),
        None => None,
    }
}

/// The intent of a monster whose turn it is: always the same attack on the
/// player.
pub open spec fn monster_intent(script: Script) -> CombatEventView {
    CombatEventView {
        source: script.monster_name,
        target: UnitReference::Player,
        spell_template: script.monster_spell,
        results: Seq::empty(),
    }
}

/// The one intent of a tick, if there is any. On the player's turn it comes
/// from the inputs; on any other turn the inputs count for nothing.
pub open spec fn intent(
    script: Script,
    turn_order: Seq<UnitReference>,
    button_map: Map<u64, ButtonAction>,
    ui_events: Seq<UiEvent>,
) -> Option<CombatEventView> {
    if turn_order[0] == UnitReference::Player {
        player_intent(script, button_map, ui_events)
    } else {
        Some(monster_intent(script))
    }
}

/// The health of the one that `target` names; `None` for a monster that is
/// not there.
pub open spec fn target_health(session: SessionView, target: UnitReference) -> Option<CurrMax> {
    match target {
        UnitReference::Player => Some(session.player.health),
        UnitReference::Monster { id } => match monster_index(session.monsters, id) {
            Some(i) => Some(session.monsters[i].health),
            None => None,
        },
    }
}

/// The fight after `event` has hit its target and has been published; `None`
/// where the target is a monster that is not there.
pub open spec fn strike(before: SessionView, event: CombatEventView) -> Option<SessionView> {
    match event.target {
        UnitReference::Player => Some(
            SessionView {
                player: Player { health: hit(before.player.health, event.spell_template.damage) },
                combat_events: before.combat_events.push(
                    resolved(event, before.player.health.current as int),
                ),
                ..before
            },
        ),
        UnitReference::Monster { id } => match monster_index(before.monsters, id) {
            Some(i) => Some(
                SessionView {
                    monsters: before.monsters.update(
                        i,
                        Monster {
                            health: hit(before.monsters[i].health, event.spell_template.damage),
                            ..before.monsters[i]
                        },
                    ),
                    combat_events: before.combat_events.push(
                        resolved(event, before.monsters[i].health.current as int),
                    ),
                    ..before
                },
            ),
            None => None,
        },
    }
}

/// What evaluation makes of one tick, up to the point where the outcome is
/// published: the turn has not passed on yet.
pub open spec fn evaluation(script: Script, ui_events: Seq<UiEvent>, before: SessionView) -> (
    SessionView,
    TurnOutcome,
) {
    match intent(script, before.turn_order, before.button_map, ui_events) {
        None => (before, TurnOutcome::NoIntent),
        Some(event) => match strike(before, event) {
            None => (before, TurnOutcome::Dropped),
            Some(after) => (after, TurnOutcome::Resolved),
        },
    }
}

/// One tick of the fight: what it leaves behind and how it ended. The turn
/// passes on exactly when an attack was resolved.
pub open spec fn tick(script: Script, ui_events: Seq<UiEvent>, before: SessionView) -> (
    SessionView,
    TurnOutcome,
) {
    let (after, outcome) = evaluation(script, ui_events, before);
    if outcome == TurnOutcome::Resolved {
        (SessionView { turn_order: rotate_left(after.turn_order, 1), ..after }, outcome)
    } else {
        (after, outcome)
    }
}

/// Results as resolution writes them: at least one, and a death only at the
/// very end, straight after the damage that caused it.
pub open spec fn death_comes_last(results: Seq<CombatResult>) -> bool {
    &&& results.len() > 0
    &&& forall|i: int|
        0 <= i < results.len() && #[trigger] results[i] == CombatResult::Death ==> i
            == results.len() - 1 && i > 0 && results[i - 1] is TakeDamage
}

/// The amounts of damage in `results`, added up.
pub open spec fn damage_reported(results: Seq<CombatResult>) -> int
    decreases results.len(),
{
    if results.len() == 0 {
        0
    } else {
        damage_reported(results.drop_last()) + match results.last() {
            CombatResult::TakeDamage(amount) => amount as int,
            CombatResult::Death => 0,
        }
    }
}

/// Damage never takes health below zero and never adds any: what is left is
/// the larger of zero and the difference. A health pair that was within its
/// bounds stays within them.
pub proof fn lemma_hit_bounds(health: CurrMax, damage: u32)
    requires
        health.current >= 0,
    ensures
        0 <= hit(health, damage).current <= health.current,
        hit(health, damage).current == vstd::math::max(0, health.current - damage),
        hit(health, damage).max == health.max,
        health.wf() ==> hit(health, damage).wf(),
{
}

/// Resolution reports at least one result. If the target dies, `Death` is the
/// last result and the one before it is the damage taken, which is all the
/// health that the target had left. What is reported as damage is never more
/// nor less than what the target lost.
pub proof fn lemma_damage_results_shape(current: int, damage: int)
    requires
        0 <= current <= i32::MAX,
        0 <= damage <= u32::MAX,
    ensures
        death_comes_last(damage_results(current, damage)),
        damage_results(current, damage).contains(CombatResult::Death) <==> current - damage <= 0,
        damage_results(current, damage).contains(CombatResult::Death) ==> {
            let results = damage_results(current, damage);
            &&& results.last() == CombatResult::Death
            &&& results[results.len() - 2] == CombatResult::TakeDamage(current as u32)
        },
        damage_reported(damage_results(current, damage)) == current - health_after(
            current,
            damage,
        ),
{
    let results = damage_results(current, damage);
    if current - damage > 0 {
        assert(results.drop_last() =~= Seq::<CombatResult>::empty());
        assert(damage_reported(results.drop_last()) == 0);
        assert(forall|i: int| 0 <= i < results.len() ==> results[i] != CombatResult::Death);
    } else {
        assert(results[1] == CombatResult::Death);
        let first = results.drop_last();
        assert(first.last() == CombatResult::TakeDamage(current as u32));
        assert(first.drop_last() =~= Seq::<CombatResult>::empty());
        assert(damage_reported(first.drop_last()) == 0);
        assert(damage_reported(first) == current);
    }
}

/// Whenever a tick resolves an attack, exactly one event is published and
/// the turn passes on. The event is the intent with the results of its spell
/// on the health that the target had, well ordered as resolution writes
/// them, and the target is left with what that spell leaves of its health.
pub proof fn lemma_resolved_tick(script: Script, ui_events: Seq<UiEvent>, before: SessionView)
    requires
        before.wf(),
        tick(script, ui_events, before).1 == TurnOutcome::Resolved,
    ensures
        intent(script, before.turn_order, before.button_map, ui_events) matches Some(event)
            && target_health(before, event.target) matches Some(health) && {
            let after = tick(script, ui_events, before).0;
            let damage = event.spell_template.damage;
            &&& after.turn_order == rotate_left(before.turn_order, 1)
            &&& after.combat_events == before.combat_events.push(
                CombatEventView {
                    results: damage_results(health.current as int, damage as int),
                    ..event
                },
            )
            &&& death_comes_last(after.combat_events.last().results)
            &&& target_health(after, event.target) == Some(hit(health, damage))
        },
{
    let after = tick(script, ui_events, before).0;
    let event = intent(script, before.turn_order, before.button_map, ui_events)->Some_0;
    let damage = event.spell_template.damage;
    assert(event.results =~= Seq::<CombatResult>::empty());
    match event.target {
        UnitReference::Player => {
            let current = before.player.health.current as int;
            lemma_damage_results_shape(current, damage as int);
            assert(event.results + damage_results(current, damage as int) =~= damage_results(
                current,
                damage as int,
            ));
        },
        UnitReference::Monster { id } => {
            lemma_monster_index(before.monsters, id);
            let i = monster_index(before.monsters, id)->Some_0;
            let current = before.monsters[i].health.current as int;
            lemma_damage_results_shape(current, damage as int);
            assert(event.results + damage_results(current, damage as int) =~= damage_results(
                current,
                damage as int,
            ));
            lemma_monster_index(after.monsters, id);
            assert(after.monsters[i].id == id);
            assert forall|j: int| 0 <= j < i implies (#[trigger] after.monsters[j]).id != id by {
                assert(after.monsters[j] == before.monsters[j]);
            }
            match monster_index(after.monsters, id) {
                Some(k) => {
                    if k < i {
                        assert(after.monsters[k].id != id);
                    }
                    if i < k {
                        assert(after.monsters[i].id != id);
                    }
                },
                None => {
                    assert(after.monsters[i].id != id);
                },
            }
        },
    }
}

/// A tick leaves nobody with health below zero, and nobody with more health
/// than before or than the maximum allows.
pub proof fn lemma_tick_keeps_healths(
    script: Script,
    ui_events: Seq<UiEvent>,
    before: SessionView,
)
    requires
        before.wf(),
    ensures
        tick(script, ui_events, before).0.wf(),
        before.healths_valid() ==> tick(script, ui_events, before).0.healths_valid(),
        tick(script, ui_events, before).0.monsters.len() == before.monsters.len(),
{
    let after = tick(script, ui_events, before).0;
    if tick(script, ui_events, before).1 == TurnOutcome::Resolved {
        let event = intent(script, before.turn_order, before.button_map, ui_events)->Some_0;
        match event.target {
            UnitReference::Player => {
                lemma_hit_bounds(before.player.health, event.spell_template.damage);
            },
            UnitReference::Monster { id } => {
                lemma_monster_index(before.monsters, id);
                let i = monster_index(before.monsters, id)->Some_0;
                lemma_hit_bounds(before.monsters[i].health, event.spell_template.damage);
            },
        }
    }
}

/// Inputs that arrive while it is not the player's turn count for nothing:
/// they yield no intent, and the tick ends as it would have without them.
pub proof fn lemma_inputs_ignored_off_turn(
    script: Script,
    ui_events: Seq<UiEvent>,
    before: SessionView,
)
    requires
        before.turn_order.len() > 0,
        before.turn_order[0] != UnitReference::Player,
    ensures
        intent(script, before.turn_order, before.button_map, ui_events) == Some(
            monster_intent(script),
        ),
        tick(script, ui_events, before) == tick(script, Seq::empty(), before),
{
}

/// On the player's turn, inputs that cast no spell change nothing: no event
/// is published, nobody's health changes, and the turn stays where it is.
pub proof fn lemma_idle_tick(script: Script, ui_events: Seq<UiEvent>, before: SessionView)
    requires
        before.turn_order.len() > 0,
        before.turn_order[0] == UnitReference::Player,
        last_cast(before.button_map, ui_events) is None,
    ensures
        tick(script, ui_events, before) == (before, TurnOutcome::NoIntent),
{
}

/// What `monster_index` finds is the first monster with that id, and it finds
/// one whenever there is one.
pub proof fn lemma_monster_index(monsters: Seq<Monster>, id: MonsterIdentifier)
    ensures
        match monster_index(monsters, id) {
            Some(i) => {
                &&& 0 <= i < monsters.len()
                &&& monsters[i].id == id
                &&& forall|j: int| 0 <= j < i ==> (#[trigger] monsters[j]).id != id
            },
            None => forall|j: int| 0 <= j < monsters.len() ==> (#[trigger] monsters[j]).id != id,
        },
    decreases monsters.len(),
{
    if monsters.len() > 0 && monsters[0].id != id {
        let rest = monsters.drop_first();
        lemma_monster_index(rest, id);
        match monster_index(rest, id) {
            Some(i) => {
                assert forall|j: int| 0 <= j < i + 1 implies (#[trigger] monsters[j]).id != id by {
                    if j > 0 {
                        assert(monsters[j] == rest[j - 1]);
                    }
                }
            },
            None => {
                assert forall|j: int| 0 <= j < monsters.len() implies (#[trigger] monsters[j]).id
                    != id by {
                    if j > 0 {
                        assert(monsters[j] == rest[j - 1]);
                    }
                }
            },
        }
    }
}

/// Finds the first monster with the id `id`.
pub fn find_monster(monsters: &Vec<Monster>, id: MonsterIdentifier) -> (found: Option<usize>)
    ensures
        monster_index(monsters@, id) == match found {
            Some(i) => Some(i as int),
            None => None,
        },
        found matches Some(i) ==> i < monsters@.len() && monsters@[i as int].id == id,
{
    let mut i: usize = 0;
    assert(monsters@.skip(0) =~= monsters@);
    while i < monsters.len()
        invariant
            i <= monsters@.len(),
            monster_index(monsters@, id) == match monster_index(monsters@.skip(i as int), id) {
                Some(j) => Some(j + i),
                None => None,
            },
        decreases monsters@.len() - i,
    {
        proof {
            let rest = monsters@.skip(i as int);
            assert(rest[0] == monsters@[i as int]);
            assert(rest.drop_first() =~= monsters@.skip(i + 1));
        }
        if monsters[i].id == id {
            return Some(i);
        }
        i = i + 1;
    }
    assert(monsters@.skip(i as int).len() == 0);
    None
}

/// Turns intents into outcomes, one per tick at most.
#[derive(Debug)]
pub struct CombatEvaluationSystem {
    spell_target: UnitReference,
    monster_name: String,
    monster_spell: SpellTemplate,
}

impl View for CombatEvaluationSystem {
    type V = Script;

    closed spec fn view(&self) -> Script {
        Script {
            spell_target: self.spell_target,
            monster_name: self.monster_name@,
            monster_spell: self.monster_spell,
        }
    }
}

impl CombatEvaluationSystem {
    /// `spell_target` is whom the player's spells hit; `monster_name` and
    /// `monster_spell` are the attack that a monster makes on its turn.
    pub fn new(
        spell_target: UnitReference,
        monster_name: String,
        monster_spell: SpellTemplate,
    ) -> (system: Self)
        ensures
            system@ == (Script { spell_target, monster_name: monster_name@, monster_spell }),
    {
        Self { spell_target, monster_name, monster_spell }
    }

    /// Turns the inputs of one tick into the player's intent. Inputs that
    /// arrive while it is not the player's turn are not kept for later: they
    /// yield nothing.
    pub fn dispatch(
        &self,
        turn_order: &TurnOrder,
        button_map: &ButtonMap,
        ui_events: &Vec<UiEvent>,
    ) -> (candidate: Option<CombatEvent>)
        ensures
            turn_order@[0] != UnitReference::Player ==> candidate is None,
            turn_order@[0] == UnitReference::Player ==> match candidate {
                Some(event) => player_intent(self@, button_map@, ui_events@) == Some(event@),
                None => player_intent(self@, button_map@, ui_events@) is None,
            },
    {
        if turn_order.current() != UnitReference::Player {
            return None;
        }
        match button_map.last_cast(ui_events) {
            Some(spell_template) => Some(
                CombatEvent::new(String::from_str("You"), self.spell_target, spell_template),
            ),
            None => None,
        }
    }

    /// The attack that a monster makes when its turn comes.
    pub fn scripted_intent(&self) -> (event: CombatEvent)
        ensures
            event@ == monster_intent(self@),
    {
        CombatEvent::new(self.monster_name.clone(), UnitReference::Player, self.monster_spell)
    }

    /// Finds the intent of whoever's turn it is, resolves it against its
    /// target and publishes the outcome. The turn stays where it is. With no
    /// intent, or with a target that is not there, the fight stays as it was.
    pub fn evaluate(&self, session: &mut CombatSession, ui_events: &Vec<UiEvent>) -> (outcome:
        TurnOutcome)
        requires
            old(session)@.wf(),
        ensures
            (final(session)@, outcome) == evaluation(self@, ui_events@, old(session)@),
            final(session)@.wf(),
    {
        let candidate = if session.turn_order.current() == UnitReference::Player {
            self.dispatch(&session.turn_order, &session.button_map, ui_events)
        } else {
            Some(self.scripted_intent())
        };
        let mut event = match candidate {
            None => {
                return TurnOutcome::NoIntent;
            },
            Some(event) => event,
        };
        let ghost planned = event@;
        match event.target() {
            UnitReference::Player => {
                handle_player_target(&mut session.player, &mut event);
            },
            UnitReference::Monster { id } => {
                match find_monster(&session.monsters, id) {
                    None => {
                        return TurnOutcome::Dropped;
                    },
                    Some(i) => {
                        handle_monster_target(&mut session.monsters[i], &mut event);
                    },
                }
            },
        }
        session.combat_events.publish(event);
        proof {
            let after = strike(old(session)@, planned)->Some_0;
            assert(session@.monsters =~= after.monsters);
            assert(session@.combat_events =~= after.combat_events);
            assert(session@ =~= after);
        }
        TurnOutcome::Resolved
    }

    /// Runs one tick: evaluates it, and passes the turn on if an attack was
    /// resolved.
    pub fn run(&self, session: &mut CombatSession, ui_events: &Vec<UiEvent>) -> (outcome:
        TurnOutcome)
        requires
            old(session)@.wf(),
        ensures
            (final(session)@, outcome) == tick(self@, ui_events@, old(session)@),
            final(session)@.wf(),
    {
        let outcome = self.evaluate(session, ui_events);
        if outcome == TurnOutcome::Resolved {
            session.turn_order.advance();
        }
        outcome
    }
}

} // verus!
