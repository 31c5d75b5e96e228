//! The pull front end: the events of the feed as a lazy sequence.
//!
//! A sequence takes the raw messages of the feed one by one, as whoever
//! drives it receives them, and says for each whether it yields the next
//! element. It keeps no message and no event.

use crate::decode::{classify_line, event_of_line};
use crate::json::viewed;
use crate::types::{Event, EventView};
use vstd::prelude::*;

verus! {

/// The elements that a run of raw messages yields: the events that the
/// messages stand for, in the order of the messages, the messages that stand
/// for no event left out.
pub open spec fn events_of_lines(lines: Seq<Seq<char>>) -> Seq<EventView>
    decreases lines.len(),
{
    if lines.len() == 0 {
        Seq::empty()
    } else {
        let earlier = events_of_lines(lines.drop_last());
        match event_of_line(lines.last()) {
            Some(event) => earlier.push(event),
            None => earlier,
        }
    }
}

/// The sequence yields message by message: what two runs of messages yield
/// one after the other is what the first yields, followed by what the second
/// yields. So the elements come in the order of their messages, however the
/// messages arrive.
pub proof fn law_sequence_keeps_order(first: Seq<Seq<char>>, second: Seq<Seq<char>>)
    ensures
        events_of_lines(first + second) == events_of_lines(first) + events_of_lines(second),
    decreases second.len(),
{
    if second.len() == 0 {
        assert(first + second == first);
    } else {
        law_sequence_keeps_order(first, second.drop_last());
        assert((first + second).drop_last() == first + second.drop_last());
    }
}

/// A message yields at most one element.
pub proof fn law_sequence_skips_or_yields(lines: Seq<Seq<char>>)
    ensures
        events_of_lines(lines).len() <= lines.len(),
    decreases lines.len(),
{
    if lines.len() > 0 {
        law_sequence_skips_or_yields(lines.drop_last());
    }
}

/// The lazy sequence of the events of the feed. It is open from its
/// construction until it is released, and yields nothing after that.
#[derive(Debug)]
pub struct EventSequence {
    pub(crate) released: bool,
}

impl View for EventSequence {
    type V = bool;

    /// Whether the sequence was released.
    open(crate) spec fn view(&self) -> bool {
        self.released
    }
}

/// The texts of a run of raw messages.
pub open spec fn texts_of(lines: Seq<String>) -> Seq<Seq<char>> {
    lines.map_values(|line: String| line@)
}

/// The models of a run of events.
pub open spec fn views_of(events: Seq<Event>) -> Seq<EventView> {
    events.map_values(|event: Event| event@)
}

/// What one raw message yields on a sequence: the event that it stands for,
/// and nothing once the sequence was released.
pub open spec fn yield_of(released: bool, line: Seq<char>) -> Option<EventView> {
    if released {
        None
    } else {
        event_of_line(line)
    }
}

/// What a run of raw messages yields on a sequence.
pub open spec fn yields_of(released: bool, lines: Seq<Seq<char>>) -> Seq<EventView> {
    if released {
        Seq::empty()
    } else {
        events_of_lines(lines)
    }
}

/// Opens the sequence of the events of the feed.
pub fn open_event_sequence() -> (r: EventSequence)
    ensures
        !r@,
{
    EventSequence { released: false }
}

impl EventSequence {
    /// Whether the sequence was released.
    pub fn is_released(&self) -> (r: bool)
        ensures
            r == self@,
    {
        self.released
    }

    /// Takes one raw message of the feed. The result is the next element of
    /// the sequence where the message stands for an event; where it stands
    /// for none, the message is skipped and the consumer waits on. A released
    /// sequence yields nothing.
    pub fn accept(&self, line: &str) -> (r: Option<Event>)
        ensures
            viewed(r) == yield_of(self@, line@),
    {
        if self.released {
            return None;
        }
        classify_line(line)
    }

    /// Takes a run of raw messages and yields their elements, in the order
    /// of the messages.
    pub fn accept_all(&self, lines: &Vec<String>) -> (r: Vec<Event>)
        ensures
            views_of(r@) == yields_of(self@, texts_of(lines@)),
    {
        let mut events: Vec<Event> = Vec::new();
        if self.released {
            assert(views_of(events@) == Seq::<EventView>::empty());
            return events;
        }
        let mut i: usize = 0;
        while i < lines.len()
            invariant
                i <= lines.len(),
                !self@,
                views_of(events@) == events_of_lines(texts_of(lines@).take(i as int)),
            decreases lines.len() - i,
        {
            let ghost next = texts_of(lines@).take(i + 1);
            assert(next.drop_last() == texts_of(lines@).take(i as int));
            assert(next.last() == lines[i as int]@);
            match self.accept(lines[i].as_str()) {
                Some(event) => {
                    let ghost before = events@;
                    events.push(event);
                    assert(views_of(events@) == views_of(before).push(event@));
                },
                None => {},
            }
            i += 1;
        }
        assert(texts_of(lines@).take(i as int) == texts_of(lines@));
        events
    }

    /// Releases the sequence: the consumer stopped asking for elements.
    pub fn release(&mut self)
        ensures
            final(self)@,
    {
        self.released = true;
    }
}

} // verus!
