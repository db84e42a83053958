use crate::cross::clrepr::text_is;
use crate::cross::clrepr_python::{
    float_bits_of, item_of, model_of, text_of, ExtractError, PyModel, PyValue,
};
use vstd::prelude::*;
use vstd::string::StringExecFns;

verus! {

/// A command from the host to the embedded side.
#[derive(Debug, Clone, Copy, PartialEq, Eq, Structural)]
pub enum MessageType {
    Start,
    Stop,
    Pause,
    Resume,
    Restart,
    Status,
    Metrics,
}

/// A message as it crosses the boundary. `timestamp` carries the IEEE 754
/// binary64 bit pattern of the time in seconds.
#[derive(Debug, PartialEq)]
pub struct MessageState {
    pub message_type: MessageType,
    pub timestamp: u64,
    pub payload: String,
}

/// The value of a `MessageState`.
pub struct MessageStateView {
    pub message_type: MessageType,
    pub timestamp: u64,
    pub payload: Seq<char>,
}

impl View for MessageState {
    type V = MessageStateView;

    open spec fn view(&self) -> MessageStateView {
        MessageStateView {
            message_type: self.message_type,
            timestamp: self.timestamp,
            payload: self.payload@,
        }
    }
}

impl Clone for MessageState {
    fn clone(&self) -> (r: Self)
        ensures
            r@ == self@,
    {
        MessageState {
            message_type: self.message_type,
            timestamp: self.timestamp,
            payload: self.payload.clone(),
        }
    }
}

/// The message type that a name stands for. The vocabulary is closed and
/// case matters: the seven names are written in lower case.
pub open spec fn message_type_named(name: Seq<char>) -> Result<MessageType, ExtractError> {
    if name == "start"@ {
        Ok(MessageType::Start)
    } else if name == "stop"@ {
        Ok(MessageType::Stop)
    } else if name == "pause"@ {
        Ok(MessageType::Pause)
    } else if name == "resume"@ {
        Ok(MessageType::Resume)
    } else if name == "restart"@ {
        Ok(MessageType::Restart)
    } else if name == "status"@ {
        Ok(MessageType::Status)
    } else if name == "metrics"@ {
        Ok(MessageType::Metrics)
    } else {
        Err(ExtractError::InvalidMessageType)
    }
}

/// The message type that a runtime value stands for: the value must be plain
/// text that names one.
pub open spec fn message_type_of(p: PyValue) -> Result<MessageType, ExtractError> {
    match p {
        PyValue::Str(s) => message_type_named(s@),
        _ => Err(ExtractError::InvalidMessageType),
    }
}

/// The text under which a message type is shown to the embedded side.
pub open spec fn message_type_label(t: MessageType) -> Seq<char> {
    match t {
        MessageType::Start => "Start"@,
        MessageType::Stop => "Stop"@,
        MessageType::Pause => "Pause"@,
        MessageType::Resume => "Resume"@,
        MessageType::Restart => "Restart"@,
        MessageType::Status => "Status"@,
        MessageType::Metrics => "Metrics"@,
    }
}

/// The message that a runtime value stands for: a dictionary with the items
/// `message_type`, `timestamp` and `payload`, read in that order; the first
/// item that is missing or of the wrong type decides the error.
pub open spec fn message_state_of(p: PyValue) -> Result<MessageStateView, ExtractError> {
    match item_of(p, "message_type"@) {
        Err(e) => Err(e),
        Ok(t) => match message_type_of(t) {
            Err(e) => Err(e),
            Ok(message_type) => match item_of(p, "timestamp"@) {
                Err(e) => Err(e),
                Ok(ts) => match float_bits_of(ts) {
                    Err(e) => Err(e),
                    Ok(timestamp) => match item_of(p, "payload"@) {
                        Err(e) => Err(e),
                        Ok(pl) => match text_of(pl) {
                            Err(e) => Err(e),
                            Ok(payload) => Ok(MessageStateView { message_type, timestamp, payload }),
                        },
                    },
                },
            },
        },
    }
}

/// The dictionary that shows a message to the embedded side.
pub open spec fn message_state_model(m: MessageStateView) -> PyModel {
    PyModel::Dict(
        seq![
            (PyModel::Str("message_type"@), PyModel::Str(message_type_label(m.message_type))),
            (PyModel::Str("timestamp"@), PyModel::Float(m.timestamp)),
            (PyModel::Str("payload"@), PyModel::Str(m.payload)),
        ],
    )
}

impl MessageType {
    /// Reads a message type from a runtime value. Unknown text is an error,
    /// never a default.
    pub fn extract(ob: &PyValue) -> (r: Result<MessageType, ExtractError>)
        ensures
            r == message_type_of(*ob),
    {
        match ob {
            PyValue::Str(s) => {
                if text_is(s, "start") {
                    Ok(MessageType::Start)
                } else if text_is(s, "stop") {
                    Ok(MessageType::Stop)
                } else if text_is(s, "pause") {
                    Ok(MessageType::Pause)
                } else if text_is(s, "resume") {
                    Ok(MessageType::Resume)
                } else if text_is(s, "restart") {
                    Ok(MessageType::Restart)
                } else if text_is(s, "status") {
                    Ok(MessageType::Status)
                } else if text_is(s, "metrics") {
                    Ok(MessageType::Metrics)
                } else {
                    Err(ExtractError::InvalidMessageType)
                }
            },
            _ => Err(ExtractError::InvalidMessageType),
        }
    }

    /// The message type as the embedded side sees it: its label, as text.
    pub fn into_py(self) -> (p: PyValue)
        ensures
            p@ == PyModel::Str(message_type_label(self)),
    {
        let label = match self {
            MessageType::Start => "Start",
            MessageType::Stop => "Stop",
            MessageType::Pause => "Pause",
            MessageType::Resume => "Resume",
            MessageType::Restart => "Restart",
            MessageType::Status => "Status",
            MessageType::Metrics => "Metrics",
        };
        PyValue::Str(String::from_str(label))
    }
}

impl MessageState {
    /// Reads a message from a runtime value.
    pub fn extract(ob: &PyValue) -> (r: Result<MessageState, ExtractError>)
        ensures
            match message_state_of(*ob) {
                Ok(v) => r matches Ok(s) && s@ == v,
                Err(e) => r matches Err(x) && x == e,
            },
    {
        let message_type = match ob.get_item("message_type") {
            Ok(t) => match MessageType::extract(t) {
                Ok(v) => v,
                Err(e) => {
                    return Err(e);
                },
            },
            Err(e) => {
                return Err(e);
            },
        };
        let timestamp = match ob.get_item("timestamp") {
            Ok(t) => match t.as_float_bits() {
                Ok(v) => v,
                Err(e) => {
                    return Err(e);
                },
            },
            Err(e) => {
                return Err(e);
            },
        };
        let payload = match ob.get_item("payload") {
            Ok(t) => match t.as_text() {
                Ok(v) => v.clone(),
                Err(e) => {
                    return Err(e);
                },
            },
            Err(e) => {
                return Err(e);
            },
        };
        Ok(MessageState { message_type, timestamp, payload })
    }

    /// The message as the embedded side sees it: a dictionary with the items
    /// `message_type`, `timestamp` and `payload`.
    pub fn into_py(self) -> (p: PyValue)
        ensures
            p@ == message_state_model(self@),
    {
        let mut items: Vec<(PyValue, PyValue)> = Vec::new();
        items.push((PyValue::Str(String::from_str("message_type")), self.message_type.into_py()));
        items.push((PyValue::Str(String::from_str("timestamp")), PyValue::Float(self.timestamp)));
        items.push((PyValue::Str(String::from_str("payload")), PyValue::Str(self.payload)));
        let p = PyValue::Dict(items);
        proof {
            reveal_with_fuel(model_of, 3);
            assert(p@->Dict_0 =~= message_state_model(self@)->Dict_0);
        }
        p
    }
}

} // verus!
