//! A span: one timed unit of work, with its events and its status.

use crate::keyvalue::{attributes_view, clone_attributes, KeyValue, KeyValueView};
use crate::span_context::{view_of, SpanContext, SpanContextView};
use vstd::prelude::*;
use vstd::string::*;

verus! {

/// The role a span plays in its trace.
#[derive(Clone, Copy, Debug, PartialEq, Eq, Structural)]
pub enum SpanKind {
    Client,
    Server,
    Producer,
    Consumer,
    Internal,
}

/// What a status is, as a plain value.
pub enum StatusView {
    Unset,
    Success,
    Error { description: Seq<char> },
}

/// How the work of a span came out.
#[derive(Debug, PartialEq, Eq)]
pub enum Status {
    Unset,
    Success,
    Error { description: String },
}

impl View for Status {
    type V = StatusView;

    open spec fn view(&self) -> StatusView {
        match self {
            Status::Unset => StatusView::Unset,
            Status::Success => StatusView::Success,
            Status::Error { description } => StatusView::Error { description: description@ },
        }
    }
}

impl Status {
    /// The error status that carries `description`.
    pub fn error(description: &str) -> (status: Status)
        ensures
            status@ == (StatusView::Error { description: description@ }),
    {
        Status::Error { description: String::from_str(description) }
    }
}

impl Clone for Status {
    fn clone(&self) -> (copy: Status)
        ensures
            copy@ == self@,
    {
        match self {
            Status::Unset => Status::Unset,
            Status::Success => Status::Success,
            Status::Error { description } => Status::Error { description: description.clone() },
        }
    }
}

/// What an event is, as a plain value.
pub struct EventView {
    pub name: Seq<char>,
    pub timestamp: u64,
    pub attributes: Seq<KeyValueView>,
}

/// Something that happened while a span was recording. An event is made
/// once and never changed.
#[derive(Debug, PartialEq, Eq)]
pub struct Event {
    name: String,
    timestamp: u64,
    attributes: Vec<KeyValue>,
}

impl View for Event {
    type V = EventView;

    closed spec fn view(&self) -> EventView {
        EventView {
            name: self.name@,
            timestamp: self.timestamp,
            attributes: attributes_view(self.attributes@),
        }
    }
}

impl Event {
    pub fn new(name: &str, timestamp: u64, attributes: &[KeyValue]) -> (event: Event)
        ensures
            event@ == (EventView {
                name: name@,
                timestamp,
                attributes: attributes_view(attributes@),
            }),
    {
        Event {
            name: String::from_str(name),
            timestamp,
            attributes: clone_attributes(attributes),
        }
    }

    pub fn name(&self) -> (name: &str)
        ensures
            name@ == self@.name,
    {
        self.name.as_str()
    }

    pub fn timestamp(&self) -> (timestamp: u64)
        ensures
            timestamp == self@.timestamp,
    {
        self.timestamp
    }

    pub fn attributes(&self) -> (attributes: &[KeyValue])
        ensures
            attributes_view(attributes@) == self@.attributes,
    {
        self.attributes.as_slice()
    }
}

/// The views of a list of events, in order.
pub open spec fn events_view(events: Seq<Event>) -> Seq<EventView> {
    Seq::new(events.len(), |i: int| events[i]@)
}

/// What a span is, as a plain value.
pub struct SpanView {
    pub context: SpanContextView,
    pub parent: Option<SpanContextView>,
    pub name: Seq<char>,
    pub kind: SpanKind,
    pub attributes: Seq<KeyValueView>,
    pub events: Seq<EventView>,
    pub status: StatusView,
    pub start_time: u64,
    pub end_time: Option<u64>,
}

impl SpanView {
    /// A span records from its start until it is ended.
    pub open spec fn is_recording(self) -> bool {
        self.end_time is None
    }

    /// The span after `event` was offered to it: appended while the span
    /// records, dropped afterwards.
    pub open spec fn add_event(self, event: EventView) -> SpanView {
        if self.is_recording() {
            SpanView { events: self.events.push(event), ..self }
        } else {
            self
        }
    }

    /// The span after `attribute` was offered to it: appended while the span
    /// records, dropped afterwards.
    pub open spec fn set_attribute(self, attribute: KeyValueView) -> SpanView {
        if self.is_recording() {
            SpanView { attributes: self.attributes.push(attribute), ..self }
        } else {
            self
        }
    }

    /// The span after `status` was offered to it. The first error wins: once
    /// the status is an error, no later status replaces it. An ended span
    /// takes no status.
    pub open spec fn set_status(self, status: StatusView) -> SpanView {
        if self.is_recording() && !(self.status is Error) {
            SpanView { status, ..self }
        } else {
            self
        }
    }

    /// The span after it was told to end at `now`: the end time of a
    /// recording span is set, an ended span keeps the one it has.
    pub open spec fn end(self, now: u64) -> SpanView {
        if self.is_recording() {
            SpanView { end_time: Some(now), ..self }
        } else {
            self
        }
    }
}

/// A live span. It owns its span context, the events added to it in order,
/// and its status. It records from its start until `end`; what is offered to
/// it afterwards is dropped.
#[derive(Debug, PartialEq, Eq)]
pub struct Span {
    context: SpanContext,
    parent: Option<SpanContext>,
    name: String,
    kind: SpanKind,
    attributes: Vec<KeyValue>,
    events: Vec<Event>,
    status: Status,
    start_time: u64,
    end_time: Option<u64>,
}

impl View for Span {
    type V = SpanView;

    closed spec fn view(&self) -> SpanView {
        SpanView {
            context: self.context@,
            parent: view_of(self.parent),
            name: self.name@,
            kind: self.kind,
            attributes: attributes_view(self.attributes@),
            events: events_view(self.events@),
            status: self.status@,
            start_time: self.start_time,
            end_time: self.end_time,
        }
    }
}

impl Span {
    /// Starts a span: recording, without events, its status unset.
    pub fn start(
        context: SpanContext,
        parent: Option<SpanContext>,
        name: &str,
        kind: SpanKind,
        attributes: &[KeyValue],
        start_time: u64,
    ) -> (span: Span)
        ensures
            span@ == (SpanView {
                context: context@,
                parent: view_of(parent),
                name: name@,
                kind,
                attributes: attributes_view(attributes@),
                events: Seq::empty(),
                status: StatusView::Unset,
                start_time,
                end_time: None,
            }),
    {
        let span = Span {
            context,
            parent,
            name: String::from_str(name),
            kind,
            attributes: clone_attributes(attributes),
            events: Vec::new(),
            status: Status::Unset,
            start_time,
            end_time: None,
        };
        assert(span@.events =~= Seq::empty());
        span
    }

    pub fn span_context(&self) -> (context: &SpanContext)
        ensures
            context@ == self@.context,
    {
        &self.context
    }

    pub fn parent(&self) -> (parent: &Option<SpanContext>)
        ensures
            view_of(*parent) == self@.parent,
    {
        &self.parent
    }

    pub fn name(&self) -> (name: &str)
        ensures
            name@ == self@.name,
    {
        self.name.as_str()
    }

    pub fn kind(&self) -> (kind: SpanKind)
        ensures
            kind == self@.kind,
    {
        self.kind
    }

    pub fn attributes(&self) -> (attributes: &[KeyValue])
        ensures
            attributes_view(attributes@) == self@.attributes,
    {
        self.attributes.as_slice()
    }

    pub fn events(&self) -> (events: &[Event])
        ensures
            events_view(events@) == self@.events,
    {
        self.events.as_slice()
    }

    pub fn status(&self) -> (status: &Status)
        ensures
            status@ == self@.status,
    {
        &self.status
    }

    pub fn start_time(&self) -> (time: u64)
        ensures
            time == self@.start_time,
    {
        self.start_time
    }

    pub fn end_time(&self) -> (time: Option<u64>)
        ensures
            time == self@.end_time,
    {
        self.end_time
    }

    pub fn is_recording(&self) -> (recording: bool)
        ensures
            recording == self@.is_recording(),
    {
        self.end_time.is_none()
    }

    /// Appends an event while the span records; does nothing once it has
    /// ended.
    pub fn add_event(&mut self, name: &str, attributes: &[KeyValue], timestamp: u64)
        ensures
            final(self)@ == old(self)@.add_event(
                EventView { name: name@, timestamp, attributes: attributes_view(attributes@) },
            ),
    {
        if self.end_time.is_none() {
            let event = Event::new(name, timestamp, attributes);
            self.events.push(event);
            assert(events_view(self.events@) =~= events_view(old(self).events@).push(event@));
        }
    }

    /// Appends an attribute while the span records; does nothing once it has
    /// ended.
    pub fn set_attribute(&mut self, attribute: KeyValue)
        ensures
            final(self)@ == old(self)@.set_attribute(attribute@),
    {
        if self.end_time.is_none() {
            self.attributes.push(attribute);
            assert(attributes_view(self.attributes@) =~= attributes_view(
                old(self).attributes@,
            ).push(attribute@));
        }
    }

    /// Sets the status, unless the span has ended or already holds an error.
    pub fn set_status(&mut self, status: Status)
        ensures
            final(self)@ == old(self)@.set_status(status@),
    {
        if self.end_time.is_none() {
            match self.status {
                Status::Error { .. } => {},
                _ => {
                    self.status = status;
                },
            }
        }
    }

    /// Ends the span at `now`. Ending an ended span changes nothing.
    pub fn end(&mut self, now: u64)
        ensures
            final(self)@ == old(self)@.end(now),
    {
        if self.end_time.is_none() {
            self.end_time = Some(now);
        }
    }
}

} // verus!
