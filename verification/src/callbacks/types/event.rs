use crate::cross::clrepr::text_is;
use crate::cross::clrepr_python::{float_bits_of, item_of, text_of, ExtractError, PyValue};
use vstd::prelude::*;

verus! {

/// What an event reports.
#[derive(Debug, Clone, Copy, PartialEq, Eq, Hash, Structural)]
pub enum EventType {
    Graph,
    Vector,
    QueryResult,
    Success,
    Failure,
}

/// An event as it crosses the boundary. `timestamp` carries the IEEE 754
/// binary64 bit pattern of the time in seconds.
#[derive(Debug, PartialEq)]
pub struct EventState {
    pub event_type: EventType,
    pub timestamp: u64,
    pub payload: String,
    pub file: String,
    pub doc_source: String,
    /// The image that the event is about, where it is about one.
    pub image_id: Option<String>,
}

/// The value of an `EventState`.
pub struct EventStateView {
    pub event_type: EventType,
    pub timestamp: u64,
    pub payload: Seq<char>,
    pub file: Seq<char>,
    pub doc_source: Seq<char>,
    pub image_id: Option<Seq<char>>,
}

impl View for EventState {
    type V = EventStateView;

    open spec fn view(&self) -> EventStateView {
        EventStateView {
            event_type: self.event_type,
            timestamp: self.timestamp,
            payload: self.payload@,
            file: self.file@,
            doc_source: self.doc_source@,
            image_id: match self.image_id {
                Some(i) => Some(i@),
                None => None,
            },
        }
    }
}

impl Clone for EventState {
    fn clone(&self) -> (r: Self)
        ensures
            r@ == self@,
    {
        EventState {
            event_type: self.event_type,
            timestamp: self.timestamp,
            payload: self.payload.clone(),
            file: self.file.clone(),
            doc_source: self.doc_source.clone(),
            image_id: match &self.image_id {
                Some(i) => Some(i.clone()),
                None => None,
            },
        }
    }
}

/// The event type that a name stands for. The vocabulary is closed and case
/// matters: each event type is named by its own name, and every other text
/// names nothing.
pub open spec fn event_type_named(name: Seq<char>) -> Result<EventType, ExtractError> {
    if name == "Graph"@ {
        Ok(EventType::Graph)
    } else if name == "Vector"@ {
        Ok(EventType::Vector)
    } else if name == "QueryResult"@ {
        Ok(EventType::QueryResult)
    } else if name == "Success"@ {
        Ok(EventType::Success)
    } else if name == "Failure"@ {
        Ok(EventType::Failure)
    } else {
        Err(ExtractError::InvalidEventType)
    }
}

/// The event type that a runtime value stands for: the value must be plain
/// text that names one.
pub open spec fn event_type_of(p: PyValue) -> Result<EventType, ExtractError> {
    match p {
        PyValue::Str(s) => event_type_named(s@),
        _ => Err(ExtractError::InvalidEventType),
    }
}

/// The text of an item that may be left out: a missing item and the
/// runtime's null both stand for no text.
pub open spec fn optional_text_item(p: PyValue, key: Seq<char>) -> Result<
    Option<Seq<char>>,
    ExtractError,
> {
    match item_of(p, key) {
        Err(ExtractError::MissingKey) => Ok(None),
        Err(e) => Err(e),
        Ok(PyValue::NoneValue) => Ok(None),
        Ok(PyValue::Str(s)) => Ok(Some(s@)),
        Ok(_) => Err(ExtractError::WrongType),
    }
}

/// The event that a runtime value stands for: a dictionary with the items
/// `event_type`, `timestamp`, `payload`, `file` and `doc_source`, and
/// `image_id` where the event has one, read in that order; the first item
/// that is missing or of the wrong type decides the error.
pub open spec fn event_state_of(p: PyValue) -> Result<EventStateView, ExtractError> {
    match item_of(p, "event_type"@) {
        Err(e) => Err(e),
        Ok(t) => match event_type_of(t) {
            Err(e) => Err(e),
            Ok(event_type) => match item_of(p, "timestamp"@) {
                Err(e) => Err(e),
                Ok(ts) => match float_bits_of(ts) {
                    Err(e) => Err(e),
                    Ok(timestamp) => match item_of(p, "payload"@) {
                        Err(e) => Err(e),
                        Ok(pl) => match text_of(pl) {
                            Err(e) => Err(e),
                            Ok(payload) => match item_of(p, "file"@) {
                                Err(e) => Err(e),
                                Ok(f) => match text_of(f) {
                                    Err(e) => Err(e),
                                    Ok(file) => match item_of(p, "doc_source"@) {
                                        Err(e) => Err(e),
                                        Ok(d) => match text_of(d) {
                                            Err(e) => Err(e),
                                            Ok(doc_source) => match optional_text_item(
                                                p,
                                                "image_id"@,
                                            ) {
                                                Err(e) => Err(e),
                                                Ok(image_id) => Ok(
                                                    EventStateView {
                                                        event_type,
                                                        timestamp,
                                                        payload,
                                                        file,
                                                        doc_source,
                                                        image_id,
                                                    },
                                                ),
                                            },
                                        },
                                    },
                                },
                            },
                        },
                    },
                },
            },
        },
    }
}

impl EventType {
    /// Reads an event type from a runtime value. Unknown text is an error,
    /// never a default.
    pub fn extract(ob: &PyValue) -> (r: Result<EventType, ExtractError>)
        ensures
            r == event_type_of(*ob),
    {
        match ob {
            PyValue::Str(s) => {
                if text_is(s, "Graph") {
                    Ok(EventType::Graph)
                } else if text_is(s, "Vector") {
                    Ok(EventType::Vector)
                } else if text_is(s, "QueryResult") {
                    Ok(EventType::QueryResult)
                } else if text_is(s, "Success") {
                    Ok(EventType::Success)
                } else if text_is(s, "Failure") {
                    Ok(EventType::Failure)
                } else {
                    Err(ExtractError::InvalidEventType)
                }
            },
            _ => Err(ExtractError::InvalidEventType),
        }
    }
}

impl EventState {
    /// Reads an event from a runtime value.
    pub fn extract(ob: &PyValue) -> (r: Result<EventState, ExtractError>)
        ensures
            match event_state_of(*ob) {
                Ok(v) => r matches Ok(s) && s@ == v,
                Err(e) => r matches Err(x) && x == e,
            },
    {
        let event_type = match ob.get_item("event_type") {
            Ok(t) => match EventType::extract(t) {
                Ok(v) => v,
                Err(e) => {
                    return Err(e);
                },
            },
            Err(e) => {
                return Err(e);
            },
        };
        let timestamp = match ob.get_item("timestamp") {
            Ok(t) => match t.as_float_bits() {
                Ok(v) => v,
                Err(e) => {
                    return Err(e);
                },
            },
            Err(e) => {
                return Err(e);
            },
        };
        let payload = match ob.get_item("payload") {
            Ok(t) => match t.as_text() {
                Ok(v) => v.clone(),
                Err(e) => {
                    return Err(e);
                },
            },
            Err(e) => {
                return Err(e);
            },
        };
        let file = match ob.get_item("file") {
            Ok(t) => match t.as_text() {
                Ok(v) => v.clone(),
                Err(e) => {
                    return Err(e);
                },
            },
            Err(e) => {
                return Err(e);
            },
        };
        let doc_source = match ob.get_item("doc_source") {
            Ok(t) => match t.as_text() {
                Ok(v) => v.clone(),
                Err(e) => {
                    return Err(e);
                },
            },
            Err(e) => {
                return Err(e);
            },
        };
        let image_id = match ob.get_item("image_id") {
            Ok(t) => match t {
                PyValue::NoneValue => None,
                PyValue::Str(i) => Some(i.clone()),
                _ => {
                    return Err(ExtractError::WrongType);
                },
            },
            Err(ExtractError::MissingKey) => None,
            Err(e) => {
                return Err(e);
            },
        };
        Ok(EventState { event_type, timestamp, payload, file, doc_source, image_id })
    }
}

} // verus!
