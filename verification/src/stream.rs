//! The callback front end: the list of listeners of a stream and the choice
//! of the listeners that a message of the feed goes to.
//!
//! The stream keeps no listener itself. A listener is registered as a
//! subscription and known by its number, its place in the order of
//! registration; whoever drives the stream keeps the callbacks and calls the
//! ones that [`EventStream::on_message`] names, in the order given.

use crate::decode::{classify_line, decoded, discriminant, event_of_line};
use crate::json::viewed;
use crate::text::same_text;
use crate::types::{Event, EventKind, EventView};
use vstd::prelude::*;

verus! {

/// What one listener asked for: events of one kind, of every wiki or of one.
#[derive(Clone, Debug)]
pub struct Subscription {
    pub(crate) kind: EventKind,
    pub(crate) wiki: Option<String>,
}

/// The model of a [`Subscription`].
pub struct SubscriptionView {
    pub kind: EventKind,
    pub wiki: Option<Seq<char>>,
}

impl View for Subscription {
    type V = SubscriptionView;

    open(crate) spec fn view(&self) -> SubscriptionView {
        SubscriptionView {
            kind: self.kind,
            wiki: viewed(self.wiki),
        }
    }
}

impl SubscriptionView {
    /// Whether the listener is called for `event`: the kind is the one asked
    /// for and, where a wiki was named, the event's server name is that
    /// wiki's.
    pub open spec fn accepts(self, event: EventView) -> bool {
        &&& self.kind == event.kind()
        &&& match self.wiki {
            Some(wiki) => event.server_name() == wiki,
            None => true,
        }
    }
}

impl Subscription {
    /// Whether the listener is called for `event`.
    pub fn accepts(&self, event: &Event) -> (r: bool)
        ensures
            r == self@.accepts(event@),
    {
        if self.kind != event.kind() {
            return false;
        }
        match &self.wiki {
            Some(wiki) => same_text(event.server_name(), wiki.as_str()),
            None => true,
        }
    }
}

/// The numbers of the listeners among `subscriptions` that are called for
/// `event`, in the order of registration.
pub open spec fn selected(subscriptions: Seq<SubscriptionView>, event: EventView) -> Seq<usize>
    decreases subscriptions.len(),
{
    if subscriptions.len() == 0 {
        Seq::empty()
    } else {
        let earlier = selected(subscriptions.drop_last(), event);
        if subscriptions.last().accepts(event) {
            earlier.push((subscriptions.len() - 1) as usize)
        } else {
            earlier
        }
    }
}

/// Every listener that accepts the event is called exactly once, no other
/// listener is called, and the calls come in the order of registration: the
/// selected numbers are exactly those of the accepting subscriptions, and
/// they increase strictly. This holds of every list that a stream can keep,
/// that is of every list whose length is a `usize`.
pub proof fn law_selected_in_registration_order(
    subscriptions: Seq<SubscriptionView>,
    event: EventView,
)
    requires
        subscriptions.len() <= usize::MAX,
    ensures
        forall|k: int|
            0 <= k < selected(subscriptions, event).len() ==> (#[trigger] selected(
                subscriptions,
                event,
            )[k]) < subscriptions.len(),
        forall|k: int|
            0 <= k < selected(subscriptions, event).len() ==> subscriptions[(#[trigger] selected(
                subscriptions,
                event,
            )[k]) as int].accepts(event),
        forall|i: int|
            0 <= i < subscriptions.len() && (#[trigger] subscriptions[i]).accepts(event)
                ==> selected(subscriptions, event).contains(i as usize),
        forall|k: int, l: int|
            0 <= k < l < selected(subscriptions, event).len() ==> (#[trigger] selected(
                subscriptions,
                event,
            )[k]) < (#[trigger] selected(subscriptions, event)[l]),
    decreases subscriptions.len(),
{
    if subscriptions.len() > 0 {
        let earlier = subscriptions.drop_last();
        law_selected_in_registration_order(earlier, event);
        let chosen = selected(subscriptions, event);
        let before = selected(earlier, event);
        assert forall|i: int|
            0 <= i < subscriptions.len() && (#[trigger] subscriptions[i]).accepts(
                event,
            ) implies chosen.contains(i as usize) by {
            if i < earlier.len() {
                assert(earlier[i].accepts(event));
                let k = choose|k: int| 0 <= k < before.len() && before[k] == i as usize;
                assert(chosen[k] == i as usize);
            } else {
                assert(chosen[chosen.len() - 1] == i as usize);
            }
        }
    }
}

/// The list of listeners only grows at its end: a registration leaves the
/// numbers of the earlier listeners and the order of their calls as they
/// were, and the new listener, where it is called, is called last.
pub proof fn law_registration_is_append_only(
    subscriptions: Seq<SubscriptionView>,
    subscription: SubscriptionView,
    event: EventView,
)
    ensures
        subscription.accepts(event) ==> selected(subscriptions.push(subscription), event)
            == selected(subscriptions, event).push(subscriptions.len() as usize),
        !subscription.accepts(event) ==> selected(subscriptions.push(subscription), event)
            == selected(subscriptions, event),
{
    assert(subscriptions.push(subscription).drop_last() == subscriptions);
}

/// A listener for one wiki is the listener for every wiki behind a guard:
/// it is called where the unfiltered listener is called and the event's
/// server name is the wiki asked for.
pub proof fn law_wiki_listener_is_guarded(kind: EventKind, wiki: Seq<char>, event: EventView)
    ensures
        (SubscriptionView { kind, wiki: Some(wiki) }).accepts(event) <==> ((SubscriptionView {
            kind,
            wiki: None,
        }).accepts(event) && event.server_name() == wiki),
{
}

/// A use of a stream that its state does not allow.
#[derive(Clone, Copy, Debug, PartialEq, Eq, Structural)]
pub enum StreamError {
    /// A listener was registered after the stream was closed.
    UseAfterClose,
}

impl StreamError {
    /// What went wrong, in words.
    pub fn message(&self) -> (r: String)
        ensures
            r@ == "use after close"@,
    {
        match self {
            StreamError::UseAfterClose => "use after close".to_owned(),
        }
    }
}

/// Where a stream stands between its construction and its end. The states
/// follow each other in one direction only: idle, connected, closed.
#[derive(Clone, Copy, Debug, PartialEq, Eq, Structural)]
pub enum StreamState {
    /// Constructed; the transport has not reported the connection yet.
    Idle,
    /// The transport reported that the connection is open.
    Connected,
    /// Closed for good.
    Closed,
}

impl StreamState {
    /// Whether a stream in the state `earlier` can come to be in this state:
    /// it stays where it is or moves on, and never moves back.
    pub open spec fn may_follow(self, earlier: StreamState) -> bool {
        match earlier {
            StreamState::Idle => true,
            StreamState::Connected => !(self is Idle),
            StreamState::Closed => self is Closed,
        }
    }

    /// The state after the transport reported an open connection: an idle
    /// stream is connected, and nothing reopens a closed one.
    pub open spec fn opened(self) -> StreamState {
        match self {
            StreamState::Idle => StreamState::Connected,
            StreamState::Connected => StreamState::Connected,
            StreamState::Closed => StreamState::Closed,
        }
    }
}

/// A typed source of the events of the feed: the state of the connection and
/// the list of the listeners, in the order of their registration. Listeners
/// are added and never removed.
#[derive(Clone, Debug)]
pub struct EventStream {
    pub(crate) state: StreamState,
    pub(crate) subscriptions: Vec<Subscription>,
}

/// The model of an [`EventStream`].
pub struct EventStreamView {
    pub state: StreamState,
    pub subscriptions: Seq<SubscriptionView>,
}

impl View for EventStream {
    type V = EventStreamView;

    open(crate) spec fn view(&self) -> EventStreamView {
        EventStreamView {
            state: self.state,
            subscriptions: self.subscriptions@.map_values(|s: Subscription| s@),
        }
    }
}

/// One event and the listeners to call with it.
#[derive(Clone, Debug)]
pub struct Delivery {
    /// The event that the message stands for.
    pub event: Event,
    /// The numbers of the listeners to call, in the order to call them in.
    pub listeners: Vec<usize>,
}

/// The model of a [`Delivery`].
pub struct DeliveryView {
    pub event: EventView,
    pub listeners: Seq<usize>,
}

impl View for Delivery {
    type V = DeliveryView;

    open spec fn view(&self) -> DeliveryView {
        DeliveryView { event: self.event@, listeners: self.listeners@ }
    }
}

/// What a raw message of the feed does on a stream. A closed stream calls no
/// listener. On any other stream a message that stands for an event is
/// delivered to the listeners selected for that event, and every other
/// message is dropped.
pub open spec fn delivery_of(stream: EventStreamView, line: Seq<char>) -> Option<DeliveryView> {
    if stream.state is Closed {
        None
    } else {
        match event_of_line(line) {
            Some(event) => Some(
                DeliveryView { event, listeners: selected(stream.subscriptions, event) },
            ),
            None => None,
        }
    }
}

/// What a registration does to a stream. On a stream that is not closed it
/// appends `subscription` to the list and returns its place there; on a
/// closed stream it fails and changes nothing.
pub open spec fn registered(
    before: EventStreamView,
    after: EventStreamView,
    subscription: SubscriptionView,
    r: Result<usize, StreamError>,
) -> bool {
    if before.state is Closed {
        r == Err::<usize, StreamError>(StreamError::UseAfterClose) && after == before
    } else {
        &&& r == Ok::<usize, StreamError>(before.subscriptions.len() as usize)
        &&& after.state == before.state
        &&& after.subscriptions == before.subscriptions.push(subscription)
    }
}

/// A message whose discriminant is neither `edit` nor `log` reaches no
/// listener, whatever the stream and its listeners.
pub proof fn law_unknown_kind_reaches_no_listener(stream: EventStreamView, line: Seq<char>)
    ensures
        (decoded(line) matches Some(j) && discriminant(j) != Some("edit"@) && discriminant(j)
            != Some("log"@)) ==> delivery_of(stream, line) is None,
{
}

/// A message that decodes to nothing, an empty line or a line that is no
/// JSON text, reaches no listener.
pub proof fn law_undecodable_line_reaches_no_listener(stream: EventStreamView, line: Seq<char>)
    ensures
        decoded(line) is None ==> delivery_of(stream, line) is None,
{
}

/// After `close` no message reaches a listener, and no later step brings the
/// stream back: not a report of the transport, not another `close`.
pub proof fn law_closed_stream_is_silent(stream: EventStreamView, line: Seq<char>)
    requires
        stream.state is Closed,
    ensures
        delivery_of(stream, line) is None,
        stream.state.opened() is Closed,
        forall|later: StreamState| later.may_follow(stream.state) ==> later is Closed,
{
}

impl Default for EventStream {
    fn default() -> (r: EventStream)
        ensures
            r@.state is Idle,
            r@.subscriptions == Seq::<SubscriptionView>::empty(),
    {
        EventStream::new()
    }
}

impl EventStream {
    /// Create new `EventStream` instance: idle, without listeners.
    pub fn new() -> (r: EventStream)
        ensures
            r@.state is Idle,
            r@.subscriptions == Seq::<SubscriptionView>::empty(),
    {
        EventStream { state: StreamState::Idle, subscriptions: Vec::new() }
    }

    /// The state of the stream.
    pub fn state(&self) -> (r: StreamState)
        ensures
            r == self@.state,
    {
        self.state
    }

    /// Whether the stream was closed.
    pub fn is_closed(&self) -> (r: bool)
        ensures
            r == (self@.state is Closed),
    {
        match self.state {
            StreamState::Closed => true,
            _ => false,
        }
    }

    /// The number of listeners registered so far.
    pub fn listener_count(&self) -> (r: usize)
        ensures
            r == self@.subscriptions.len(),
    {
        self.subscriptions.len()
    }

    /// Takes the transport's report that the connection is open.
    pub fn opened(&mut self)
        ensures
            final(self)@.state == old(self)@.state.opened(),
            final(self)@.state.may_follow(old(self)@.state),
            final(self)@.subscriptions == old(self)@.subscriptions,
    {
        match self.state {
            StreamState::Idle => {
                self.state = StreamState::Connected;
            },
            _ => {},
        }
    }

    /// Close the connection. The listeners stay registered and are called no
    /// more.
    pub fn close(&mut self)
        ensures
            final(self)@.state is Closed,
            final(self)@.state.may_follow(old(self)@.state),
            final(self)@.subscriptions == old(self)@.subscriptions,
    {
        self.state = StreamState::Closed;
    }

    fn subscribe(&mut self, kind: EventKind, wiki: Option<String>) -> (r: Result<
        usize,
        StreamError,
    >)
        ensures
            registered(
                old(self)@,
                final(self)@,
                (SubscriptionView { kind, wiki: viewed(wiki) }),
                r,
            ),
    {
        if self.is_closed() {
            return Err(StreamError::UseAfterClose);
        }
        let number = self.subscriptions.len();
        self.subscriptions.push(Subscription { kind, wiki });
        assert(self@.subscriptions =~= old(self)@.subscriptions.push(
            SubscriptionView { kind, wiki: viewed(wiki) },
        ));
        Ok(number)
    }

    /// Set a listener for all edits. The result is the listener's number;
    /// on a closed stream nothing is registered.
    pub fn on_edit(&mut self) -> (r: Result<usize, StreamError>)
        ensures
            registered(
                old(self)@,
                final(self)@,
                (SubscriptionView { kind: EventKind::Edit, wiki: None }),
                r,
            ),
    {
        self.subscribe(EventKind::Edit, None)
    }

    /// Set a listener for edits on a specific wiki using the server name:
    /// the listener for all edits behind a guard that lets the edits of
    /// `wiki` pass.
    pub fn on_wiki_edit(&mut self, wiki: &str) -> (r: Result<usize, StreamError>)
        ensures
            registered(
                old(self)@,
                final(self)@,
                (SubscriptionView { kind: EventKind::Edit, wiki: Some(wiki@) }),
                r,
            ),
    {
        self.subscribe(EventKind::Edit, Some(wiki.to_owned()))
    }

    /// Set a listener for all log entries.
    pub fn on_log(&mut self) -> (r: Result<usize, StreamError>)
        ensures
            registered(
                old(self)@,
                final(self)@,
                (SubscriptionView { kind: EventKind::Log, wiki: None }),
                r,
            ),
    {
        self.subscribe(EventKind::Log, None)
    }

    /// Set a listener for log entries on a specific wiki using the server
    /// name: the listener for all log entries behind a guard that lets the
    /// entries of `wiki` pass.
    pub fn on_wiki_log(&mut self, wiki: &str) -> (r: Result<usize, StreamError>)
        ensures
            registered(
                old(self)@,
                final(self)@,
                (SubscriptionView { kind: EventKind::Log, wiki: Some(wiki@) }),
                r,
            ),
    {
        self.subscribe(EventKind::Log, Some(wiki.to_owned()))
    }

    /// The numbers of the listeners to call for `event`, in the order of
    /// their registration.
    pub fn listeners_of(&self, event: &Event) -> (r: Vec<usize>)
        ensures
            r@ == selected(self@.subscriptions, event@),
    {
        let mut numbers: Vec<usize> = Vec::new();
        let mut i: usize = 0;
        while i < self.subscriptions.len()
            invariant
                i <= self.subscriptions.len(),
                numbers@ == selected(self@.subscriptions.take(i as int), event@),
            decreases self.subscriptions.len() - i,
        {
            let ghost next = self@.subscriptions.take(i + 1);
            assert(next.drop_last() == self@.subscriptions.take(i as int));
            assert(next.last() == self.subscriptions[i as int]@);
            if self.subscriptions[i].accepts(event) {
                numbers.push(i);
            }
            i += 1;
        }
        assert(self@.subscriptions.take(i as int) == self@.subscriptions);
        numbers
    }

    /// Takes one raw message of the feed. Where the stream is not closed and
    /// the message stands for an event, the result holds the event and the
    /// listeners to call with it; a closed stream calls no listener, and a
    /// message that stands for no event is dropped.
    pub fn on_message(&self, line: &str) -> (r: Option<Delivery>)
        ensures
            viewed(r) == delivery_of(self@, line@),
            self@.state is Closed ==> r is None,
            event_of_line(line@) is None ==> r is None,
    {
        if self.is_closed() {
            return None;
        }
        match classify_line(line) {
            Some(event) => {
                let listeners = self.listeners_of(&event);
                Some(Delivery { event, listeners })
            },
            None => None,
        }
    }
}

} // verus!
