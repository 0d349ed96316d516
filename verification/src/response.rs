//! What a successful call returns: attributes, audit events and an optional
//! payload; and what every call is told about its caller.

use vstd::prelude::*;

verus! {

/// A key with its value.
#[derive(Debug, Clone, PartialEq, Eq)]
pub struct Attribute {
    pub key: String,
    pub value: String,
}

/// An `Attribute` with its texts as sequences of characters.
pub struct AttributeView {
    pub key: Seq<char>,
    pub value: Seq<char>,
}

impl View for Attribute {
    type V = AttributeView;

    open spec fn view(&self) -> AttributeView {
        AttributeView { key: self.key@, value: self.value@ }
    }
}

/// The attributes of a list, each by its view, in order.
pub open spec fn attribute_views(attributes: Seq<Attribute>) -> Seq<AttributeView> {
    Seq::new(attributes.len(), |i: int| attributes[i]@)
}

/// An audit event: a kind and ordered attributes. Events are appended to the
/// result of a call and never read back.
#[derive(Debug, Clone, PartialEq, Eq)]
pub struct Event {
    pub ty: String,
    pub attributes: Vec<Attribute>,
}

/// An `Event` with its texts as sequences of characters.
pub struct EventView {
    pub ty: Seq<char>,
    pub attributes: Seq<AttributeView>,
}

impl View for Event {
    type V = EventView;

    open spec fn view(&self) -> EventView {
        EventView { ty: self.ty@, attributes: attribute_views(self.attributes@) }
    }
}

/// The events of a list, each by its view, in order.
pub open spec fn event_views(events: Seq<Event>) -> Seq<EventView> {
    Seq::new(events.len(), |i: int| events[i]@)
}

/// The successful result of a call.
#[derive(Debug, Clone, PartialEq, Eq)]
pub struct Response {
    pub attributes: Vec<Attribute>,
    pub events: Vec<Event>,
    pub data: Option<Vec<u8>>,
}

/// A `Response` with its texts as sequences of characters and its payload as
/// a sequence of bytes.
pub struct ResponseView {
    pub attributes: Seq<AttributeView>,
    pub events: Seq<EventView>,
    pub data: Option<Seq<u8>>,
}

impl View for Response {
    type V = ResponseView;

    open spec fn view(&self) -> ResponseView {
        ResponseView {
            attributes: attribute_views(self.attributes@),
            events: event_views(self.events@),
            data: match self.data {
                Some(bytes) => Some(bytes@),
                None => None,
            },
        }
    }
}

/// The response that says nothing: no attribute, no event, no payload.
pub open spec fn empty_response() -> ResponseView {
    ResponseView { attributes: Seq::empty(), events: Seq::empty(), data: None }
}

/// What a call is told about where it comes from.
#[derive(Debug, Clone, PartialEq, Eq)]
pub struct MessageInfo {
    /// The identity of the caller.
    pub sender: String,
}

impl Event {
    /// An event of the given kind without attributes.
    pub fn new(ty: &str) -> (event: Event)
        ensures
            event@ == (EventView { ty: ty@, attributes: Seq::empty() }),
    {
        let event = Event { ty: ty.to_owned(), attributes: Vec::new() };
        assert(attribute_views(event.attributes@) =~= Seq::empty());
        event
    }

    /// The event with one more attribute at its end.
    pub fn add_attribute(self, key: &str, value: &str) -> (event: Event)
        ensures
            event@ == (EventView {
                ty: self@.ty,
                attributes: self@.attributes.push(AttributeView { key: key@, value: value@ }),
            }),
    {
        let mut event = self;
        event.attributes.push(Attribute { key: key.to_owned(), value: value.to_owned() });
        assert(attribute_views(event.attributes@) =~= attribute_views(self.attributes@).push(
            AttributeView { key: key@, value: value@ },
        ));
        event
    }
}

impl Response {
    /// The response that says nothing.
    pub fn new() -> (response: Response)
        ensures
            response@ == empty_response(),
    {
        let response = Response { attributes: Vec::new(), events: Vec::new(), data: None };
        assert(attribute_views(response.attributes@) =~= Seq::empty());
        assert(event_views(response.events@) =~= Seq::empty());
        response
    }

    /// The response with one more event at the end of its events.
    pub fn add_event(self, event: Event) -> (response: Response)
        ensures
            response@ == (ResponseView { events: self@.events.push(event@), ..self@ }),
    {
        let mut response = self;
        response.events.push(event);
        assert(event_views(response.events@) =~= event_views(self.events@).push(event@));
        response
    }

    /// The response with one more attribute at the end of its attributes.
    pub fn add_attribute(self, key: &str, value: &str) -> (response: Response)
        ensures
            response@ == (ResponseView {
                attributes: self@.attributes.push(AttributeView { key: key@, value: value@ }),
                ..self@
            }),
    {
        let mut response = self;
        response.attributes.push(Attribute { key: key.to_owned(), value: value.to_owned() });
        assert(attribute_views(response.attributes@) =~= attribute_views(self.attributes@).push(
            AttributeView { key: key@, value: value@ },
        ));
        response
    }

    /// The response with the payload put in place of the one it had.
    pub fn set_data(self, data: Vec<u8>) -> (response: Response)
        ensures
            response@ == (ResponseView { data: Some(data@), ..self@ }),
    {
        let mut response = self;
        response.data = Some(data);
        response
    }
}

} // verus!
