//! The channel on which resolved combat events are handed to whoever listens.

use vstd::prelude::*;
use vstd::slice::slice_subrange;
use crate::combat::{CombatEvent, CombatEventView};

verus! {

/// What each of the events in `events` says, in the same order.
pub open spec fn views(events: Seq<CombatEvent>) -> Seq<CombatEventView> {
    events.map_values(|e: CombatEvent| e@)
}

/// What a reader standing at `position` has not seen yet of the events
/// `published`.
pub open spec fn pending<T>(published: Seq<T>, position: nat) -> Seq<T> {
    if position <= published.len() {
        published.subrange(position as int, published.len() as int)
    } else {
        Seq::empty()
    }
}

/// A reader's place on the bus: how many of the published events it has
/// been handed or has skipped.
#[derive(Debug)]
pub struct ReaderId {
    position: usize,
}

impl ReaderId {
    pub closed spec fn position(&self) -> nat {
        self.position as nat
    }
}

/// One writer, any number of readers. Events are kept in the order in which
/// they were published; the view is that sequence. Every reader gets each
/// event once, in that order, whatever the other readers do.
#[derive(Debug)]
pub struct EventBus {
    events: Vec<CombatEvent>,
}

impl View for EventBus {
    type V = Seq<CombatEventView>;

    closed spec fn view(&self) -> Seq<CombatEventView> {
        views(self.events@)
    }
}

impl EventBus {
    /// A bus on which nothing has been published.
    pub fn new() -> (bus: Self)
        ensures
            bus@ == Seq::<CombatEventView>::empty(),
    {
        let bus = EventBus { events: Vec::new() };
        assert(bus@ =~= Seq::<CombatEventView>::empty());
        bus
    }

    /// A new reader, which will be handed what is published from now on.
    pub fn register_reader(&self) -> (reader: ReaderId)
        ensures
            reader.position() == self@.len(),
    {
        ReaderId { position: self.events.len() }
    }

    /// Puts `event` behind everything published so far.
    pub fn publish(&mut self, event: CombatEvent)
        ensures
            final(self)@ == old(self)@.push(event@),
    {
        self.events.push(event);
        assert(final(self)@ =~= old(self)@.push(event@));
    }

    /// How many events have been published.
    pub fn len(&self) -> (n: usize)
        ensures
            n == self@.len(),
    {
        self.events.len()
    }

    /// Hands the reader, in the order of publication, every event that it
    /// has not been handed yet, and moves it behind the last of them.
    pub fn read_since<'a>(&'a self, reader: &mut ReaderId) -> (unread: &'a [CombatEvent])
        ensures
            views(unread@) == pending(self@, old(reader).position()),
            final(reader).position() == self@.len(),
    {
        let len = self.events.len();
        let start = if reader.position > len {
            len
        } else {
            reader.position
        };
        reader.position = len;
        let unread = slice_subrange(self.events.as_slice(), start, len);
        assert(views(unread@) =~= pending(self@, old(reader).position()));
        unread
    }
}

/// A reader that has just read finds nothing more until something is
/// published, and then finds exactly what was published since.
pub proof fn lemma_read_once<T>(published: Seq<T>, later: Seq<T>)
    ensures
        pending(published, published.len()) == Seq::<T>::empty(),
        pending(published + later, published.len()) == later,
{
    assert(pending(published, published.len()) =~= Seq::<T>::empty());
    assert(pending(published + later, published.len()) =~= later);
}

} // verus!
