//! Buttons, what each one stands for, and the clicks that arrive on them.

use std::collections::HashMap;
use vstd::prelude::*;
use crate::combat::SpellTemplate;

verus! {

broadcast use vstd::std_specs::hash::group_hash_axioms;

/// What pressing a button asks for.
#[derive(Debug, Clone, Copy, PartialEq, Eq, Structural)]
pub enum ButtonAction {
    CastSpell { spell_template: SpellTemplate },
    Nothing,
}

/// Which action each button stands for, by the button's id. Filled once when
/// the fight is set up and only read afterwards.
#[derive(Debug)]
pub struct ButtonMap {
    pub map: HashMap<u64, ButtonAction>,
}

impl View for ButtonMap {
    type V = Map<u64, ButtonAction>;

    open spec fn view(&self) -> Map<u64, ButtonAction> {
        self.map@
    }
}

/// What kind of input arrived on a button.
#[derive(Debug, Clone, Copy, PartialEq, Eq, Structural)]
pub enum UiEventType {
    /// The button went down: the only input that counts as a press.
    ClickStart,
    /// Anything else: a release, the pointer hovering, a drag.
    Other,
}

/// One input on one button, as the presentation layer saw it.
#[derive(Debug, Clone, Copy, PartialEq, Eq, Structural)]
pub struct UiEvent {
    pub event_type: UiEventType,
    pub target: u64,
}

/// What one input amounts to.
#[derive(Debug, Clone, Copy, PartialEq, Eq, Structural)]
pub enum Press {
    /// Not the start of a click.
    NotAPress,
    /// A press of a button that stands for nothing at all.
    NotMapped,
    /// A press of a button that is there but does nothing.
    Nothing,
    /// A press of a spell button.
    CastSpell { spell_template: SpellTemplate },
}

/// What `event` amounts to under the button map `map`.
pub open spec fn press_of(map: Map<u64, ButtonAction>, event: UiEvent) -> Press {
    if event.event_type != UiEventType::ClickStart {
        Press::NotAPress
    } else if !map.contains_key(event.target) {
        Press::NotMapped
    } else {
        match map[event.target] {
            ButtonAction::CastSpell { spell_template } => Press::CastSpell { spell_template },
            ButtonAction::Nothing => Press::Nothing,
        }
    }
}

/// The spell cast by the last input in `events` that is a press of a spell
/// button, if there is one.
pub open spec fn last_cast(map: Map<u64, ButtonAction>, events: Seq<UiEvent>) -> Option<
    SpellTemplate,
>
    decreases events.len(),
{
    if events.len() == 0 {
        None
    } else {
        match press_of(map, events.last()) {
            Press::CastSpell { spell_template } => Some(spell_template),
            _ => last_cast(map, events.drop_last()),
        }
    }
}

impl ButtonMap {
    /// Says what one input amounts to.
    pub fn press(&self, event: &UiEvent) -> (press: Press)
        ensures
            press == press_of(self@, *event),
    {
        match event.event_type {
            UiEventType::ClickStart => {},
            UiEventType::Other => {
                return Press::NotAPress;
            },
        }
        match self.map.get(&event.target) {
            Some(ButtonAction::CastSpell { spell_template }) => Press::CastSpell {
                spell_template: *spell_template,
            },
            Some(ButtonAction::Nothing) => Press::Nothing,
            None => Press::NotMapped,
        }
    }

    /// Goes through the inputs in the order given and keeps the last spell
    /// that one of them casts.
    pub fn last_cast(&self, events: &Vec<UiEvent>) -> (cast: Option<SpellTemplate>)
        ensures
            cast == last_cast(self@, events@),
    {
        let mut cast: Option<SpellTemplate> = None;
        let mut i: usize = 0;
        while i < events.len()
            invariant
                i <= events.len(),
                cast == last_cast(self@, events@.take(i as int)),
            decreases events.len() - i,
        {
            let press = self.press(&events[i]);
            proof {
                let upto = events@.take(i + 1);
                assert(upto.last() == events@[i as int]);
                assert(upto.drop_last() =~= events@.take(i as int));
            }
            match press {
                Press::CastSpell { spell_template } => {
                    cast = Some(spell_template);
                },
                _ => {},
            }
            i = i + 1;
        }
        assert(events@.take(events.len() as int) =~= events@);
        cast
    }
}

/// Lays out `rows * cols` buttons and gives the button at position `k` of
/// `texts` the id `k` and the action written there. The labels are for the
/// eye only.
pub fn create_buttons(rows: u32, cols: u32, texts: &Vec<(String, ButtonAction)>) -> (buttons:
    ButtonMap)
    requires
        rows * cols <= texts@.len(),
    ensures
        forall|k: u64| buttons@.contains_key(k) <==> k < rows * cols,
        forall|k: u64| k < rows * cols ==> buttons@[k] == texts@[k as int].1,
{
    assert(rows * cols <= 0xffff_ffff * 0xffff_ffff) by (nonlinear_arith)
        requires
            0 <= rows <= 0xffff_ffff,
            0 <= cols <= 0xffff_ffff,
    ;
    let count: u64 = rows as u64 * cols as u64;
    let mut map: HashMap<u64, ButtonAction> = HashMap::new();
    let len: usize = texts.len();
    let mut k: usize = 0;
    while (k as u64) < count
        invariant
            k <= count,
            count == rows * cols,
            count <= len == texts@.len(),
            forall|j: u64| map@.contains_key(j) <==> j < k,
            forall|j: u64| j < k ==> map@[j] == texts@[j as int].1,
        decreases count - k,
    {
        let action = texts[k].1;
        map.insert(k as u64, action);
        k = k + 1;
    }
    ButtonMap { map }
}

} // verus!
