//! The written record of a fight: one line for each resolved combat event.

use vstd::prelude::*;
use vstd::string::*;
use crate::combat::{CombatEvent, CombatEventView, CombatResult};
use crate::eventbus::{pending, EventBus, ReaderId};
use crate::monster::UnitReference;

verus! {

/// The character for one decimal digit.
pub open spec fn digit(d: nat) -> char
    recommends
        d < 10,
{
    if d == 0 {
        '0'
    } else if d == 1 {
        '1'
    } else if d == 2 {
        '2'
    } else if d == 3 {
        '3'
    } else if d == 4 {
        '4'
    } else if d == 5 {
        '5'
    } else if d == 6 {
        '6'
    } else if d == 7 {
        '7'
    } else if d == 8 {
        '8'
    } else {
        '9'
    }
}

/// `n` written in decimal, without leading zeros.
pub open spec fn decimal(n: nat) -> Seq<char>
    decreases n,
{
    if n < 10 {
        seq![digit(n)]
    } else {
        decimal(n / 10).push(digit(n % 10))
    }
}

/// How a participant is named in the log.
pub open spec fn target_text(target: UnitReference) -> Seq<char> {
    match target {
        UnitReference::Player => "Player"@,
        UnitReference::Monster { id } => "Monster "@ + decimal(id.value() as nat),
    }
}

/// How one result is written in the log.
pub open spec fn result_text(result: CombatResult) -> Seq<char> {
    match result {
        CombatResult::TakeDamage(amount) => "TakeDamage("@ + decimal(amount as nat) + ")"@,
        CombatResult::Death => "Death"@,
    }
}

/// The results in order, with a comma and a space between neighbours.
pub open spec fn results_text(results: Seq<CombatResult>) -> Seq<char>
    decreases results.len(),
{
    if results.len() == 0 {
        Seq::empty()
    } else if results.len() == 1 {
        result_text(results[0])
    } else {
        results_text(results.drop_last()) + ", "@ + result_text(results.last())
    }
}

/// The log line for one event: who attacked whom, how hard, and what came of
/// it.
pub open spec fn event_line(event: CombatEventView) -> Seq<char> {
    event.source + " -> "@ + target_text(event.target) + " ("@ + decimal(
        event.spell_template.damage as nat,
    ) + " damage): "@ + results_text(event.results)
}

/// The log lines for `events`, one each, in the same order.
pub open spec fn event_lines(events: Seq<CombatEventView>) -> Seq<Seq<char>> {
    events.map_values(|e: CombatEventView| event_line(e))
}

fn digit_str(d: u32) -> (s: &'static str)
    requires
        d < 10,
    ensures
        s@ == seq![digit(d as nat)],
{
    proof {
        reveal_strlit("0");
        reveal_strlit("1");
        reveal_strlit("2");
        reveal_strlit("3");
        reveal_strlit("4");
        reveal_strlit("5");
        reveal_strlit("6");
        reveal_strlit("7");
        reveal_strlit("8");
        reveal_strlit("9");
    }
    let s = if d == 0 {
        "0"
    } else if d == 1 {
        "1"
    } else if d == 2 {
        "2"
    } else if d == 3 {
        "3"
    } else if d == 4 {
        "4"
    } else if d == 5 {
        "5"
    } else if d == 6 {
        "6"
    } else if d == 7 {
        "7"
    } else if d == 8 {
        "8"
    } else {
        "9"
    };
    assert(s@ =~= seq![digit(d as nat)]);
    s
}

/// Writes a number in decimal.
pub fn render_decimal(n: u32) -> (text: String)
    ensures
        text@ == decimal(n as nat),
    decreases n,
{
    if n < 10 {
        String::from_str(digit_str(n))
    } else {
        let mut text = render_decimal(n / 10);
        text.append(digit_str(n % 10));
        assert(text@ =~= decimal(n as nat));
        text
    }
}

/// Writes the name of a participant.
pub fn render_target(target: UnitReference) -> (text: String)
    ensures
        text@ == target_text(target),
{
    match target {
        UnitReference::Player => String::from_str("Player"),
        UnitReference::Monster { id } => {
            let mut text = String::from_str("Monster ");
            let number = render_decimal(id.id());
            text.append(number.as_str());
            text
        },
    }
}

/// Writes one result.
pub fn render_result(result: CombatResult) -> (text: String)
    ensures
        text@ == result_text(result),
{
    match result {
        CombatResult::TakeDamage(amount) => {
            let mut text = String::from_str("TakeDamage(");
            let number = render_decimal(amount);
            text.append(number.as_str());
            text.append(")");
            text
        },
        CombatResult::Death => String::from_str("Death"),
    }
}

/// Writes the results of an event, in order.
pub fn render_results(results: &Vec<CombatResult>) -> (text: String)
    ensures
        text@ == results_text(results@),
{
    let mut text = String::new();
    let mut i: usize = 0;
    while i < results.len()
        invariant
            i <= results.len(),
            text@ == results_text(results@.take(i as int)),
        decreases results.len() - i,
    {
        let one = render_result(results[i]);
        proof {
            let upto = results@.take(i + 1);
            assert(upto.last() == results@[i as int]);
            assert(upto.drop_last() =~= results@.take(i as int));
            assert(upto[0] == results@[0]);
        }
        if i > 0 {
            text.append(", ");
        }
        text.append(one.as_str());
        assert(text@ =~= results_text(results@.take(i + 1)));
        i = i + 1;
    }
    assert(results@.take(results.len() as int) =~= results@);
    text
}

/// Writes the log line for one event.
pub fn render_event(event: &CombatEvent) -> (line: String)
    ensures
        line@ == event_line(event@),
{
    let mut line = String::from_str(event.source());
    line.append(" -> ");
    let target = render_target(event.target());
    line.append(target.as_str());
    line.append(" (");
    let damage = render_decimal(event.spell_template().damage);
    line.append(damage.as_str());
    line.append(" damage): ");
    let results = render_results(event.results());
    line.append(results.as_str());
    line
}

/// What each line of a log says.
pub open spec fn line_views(lines: Seq<String>) -> Seq<Seq<char>> {
    lines.map_values(|s: String| s@)
}

/// The log that is shown to the player. Lines are only ever added at the
/// end; the view is the lines in order.
#[derive(Debug)]
pub struct EventLogText {
    lines: Vec<String>,
}

impl View for EventLogText {
    type V = Seq<Seq<char>>;

    closed spec fn view(&self) -> Seq<Seq<char>> {
        line_views(self.lines@)
    }
}

impl EventLogText {
    /// A log that opens with `first_line`.
    pub fn new(first_line: String) -> (log: Self)
        ensures
            log@ == seq![first_line@],
    {
        let mut lines: Vec<String> = Vec::new();
        lines.push(first_line);
        let log = EventLogText { lines };
        assert(log@ =~= seq![first_line@]);
        log
    }

    /// Adds a line at the end.
    pub fn append_line(&mut self, line: String)
        ensures
            final(self)@ == old(self)@.push(line@),
    {
        self.lines.push(line);
        assert(final(self)@ =~= old(self)@.push(line@));
    }

    /// The lines written so far, oldest first.
    pub fn lines(&self) -> (lines: &Vec<String>)
        ensures
            line_views(lines@) == self@,
    {
        &self.lines
    }
}

/// Listens on the bus and writes a line for every event that it is handed.
#[derive(Debug)]
pub struct EventLogSystem {
    combat_reader_id: ReaderId,
}

impl EventLogSystem {
    /// How many of the published events this listener has dealt with.
    pub closed spec fn position(&self) -> nat {
        self.combat_reader_id.position()
    }

    pub fn new(combat_reader_id: ReaderId) -> (system: Self)
        ensures
            system.position() == combat_reader_id.position(),
    {
        Self { combat_reader_id }
    }

    /// Writes one line for each event published since the last run, in the
    /// order of publication. Nothing but the log and the listener's own
    /// place on the bus changes.
    pub fn run(&mut self, events: &EventBus, log: &mut EventLogText)
        ensures
            final(self).position() == events@.len(),
            final(log)@ == old(log)@ + event_lines(pending(events@, old(self).position())),
    {
        let unread = events.read_since(&mut self.combat_reader_id);
        let ghost told = pending(events@, old(self).position());
        let mut i: usize = 0;
        while i < unread.len()
            invariant
                i <= unread@.len(),
                crate::eventbus::views(unread@) == told,
                log@ == old(log)@ + event_lines(told.take(i as int)),
            decreases unread.len() - i,
        {
            let line = render_event(&unread[i]);
            log.append_line(line);
            assert(told[i as int] == unread@[i as int]@);
            assert(log@ =~= old(log)@ + event_lines(told.take(i + 1)));
            i = i + 1;
        }
        assert(told.take(told.len() as int) =~= told);
    }
}

} // verus!
