use crate::comm::types::ingested_tokens::IngestedTokens;
use crate::comm::types::message::{MessageState, MessageType};
use crossbeam_channel::{Receiver, Sender, TryRecvError, TrySendError};
use vstd::prelude::*;

verus! {

/// `crossbeam_channel::Receiver`, carried as an opaque value.
#[verifier::external_type_specification]
#[verifier::external_body]
#[verifier::reject_recursive_types(T)]
pub struct ExChannelReceiver<T>(Receiver<T>);

/// `crossbeam_channel::Sender`, carried as an opaque value.
#[verifier::external_type_specification]
#[verifier::external_body]
#[verifier::reject_recursive_types(T)]
pub struct ExChannelSender<T>(Sender<T>);

/// Why a queue gave nothing.
#[derive(Debug, Clone, Copy, PartialEq, Eq, Structural)]
pub enum RecvFailure {
    /// Nothing is queued now.
    Empty,
    /// Nothing is queued and every sender is gone.
    Disconnected,
}

/// Why a queue took nothing.
#[derive(Debug, Clone, Copy, PartialEq, Eq, Structural)]
pub enum SendFailure {
    /// The queue is full.
    Full,
    /// Every receiver is gone.
    Disconnected,
}

/// Why a poll of the handler gave nothing.
#[derive(Debug, Clone, Copy, PartialEq, Eq, Structural)]
pub enum PollError {
    /// The handler has no receiver for what was asked.
    NoChannel,
    /// Nothing is queued now.
    Empty,
    /// Nothing is queued and every sender is gone.
    Disconnected,
}

/// What became of a message handed to `ChannelHandler::try_send_in_rust`.
#[derive(Debug, Clone, Copy, PartialEq, Eq, Structural)]
pub enum SendOutcome {
    /// The message is in the queue to the host.
    Sent,
    /// The handler has no sender to the host.
    NoChannel,
    /// The queue to the host is full; the message is dropped.
    Full,
    /// The host has dropped its receiver; the message is dropped.
    Disconnected,
}

/// `crossbeam_channel::Receiver::try_recv`: takes the next item without
/// waiting, or says why there is none. What comes back depends on the
/// senders, so nothing is claimed of the result.
#[verifier::external_body]
fn try_recv<T>(rx: &Receiver<T>) -> (r: Result<T, RecvFailure>) {
    match rx.try_recv() {
        Ok(item) => Ok(item),
        Err(TryRecvError::Empty) => Err(RecvFailure::Empty),
        Err(TryRecvError::Disconnected) => Err(RecvFailure::Disconnected),
    }
}

/// `crossbeam_channel::Sender::try_send`: queues the item without waiting, or
/// says why it could not. What happens depends on the queue and its
/// receivers, so nothing is claimed of the result.
#[verifier::external_body]
fn try_send<T>(tx: &Sender<T>, item: T) -> (r: Result<(), SendFailure>) {
    match tx.try_send(item) {
        Ok(()) => Ok(()),
        Err(TrySendError::Full(_)) => Err(SendFailure::Full),
        Err(TrySendError::Disconnected(_)) => Err(SendFailure::Disconnected),
    }
}

/// `Clone` of `crossbeam_channel::Receiver`: another handle to the same
/// queue.
#[verifier::external_body]
fn clone_receiver<T>(rx: &Receiver<T>) -> (r: Receiver<T>) {
    rx.clone()
}

/// `Clone` of `crossbeam_channel::Sender`: another handle to the same queue.
#[verifier::external_body]
fn clone_sender<T>(tx: &Sender<T>) -> (r: Sender<T>) {
    tx.clone()
}

/// What a poll reports for what the queue gave: the item, or why there is
/// none.
pub open spec fn poll_result_of<T>(received: Result<T, RecvFailure>) -> Result<T, PollError> {
    match received {
        Ok(item) => Ok(item),
        Err(RecvFailure::Empty) => Err(PollError::Empty),
        Err(RecvFailure::Disconnected) => Err(PollError::Disconnected),
    }
}

/// What a send reports for what the queue did with the message.
pub open spec fn send_outcome_of(sent: Result<(), SendFailure>) -> SendOutcome {
    match sent {
        Ok(_) => SendOutcome::Sent,
        Err(SendFailure::Full) => SendOutcome::Full,
        Err(SendFailure::Disconnected) => SendOutcome::Disconnected,
    }
}

/// What the embedded side gets of a poll for tokens: the tokens, or nothing
/// where the poll failed for whatever reason.
pub open spec fn polled_tokens_of(polled: Result<IngestedTokens, PollError>) -> Option<
    IngestedTokens,
> {
    match polled {
        Ok(tokens) => Some(tokens),
        Err(_) => None,
    }
}

/// What the embedded side gets of a poll for a message: the state of the
/// message, or nothing where the poll failed for whatever reason.
pub open spec fn polled_state_of(polled: Result<(MessageType, MessageState), PollError>) -> Option<
    MessageState,
> {
    match polled {
        Ok(message) => Some(message.1),
        Err(_) => None,
    }
}

/// What a poll reports for what the queue gave.
pub fn poll_result<T>(received: Result<T, RecvFailure>) -> (r: Result<T, PollError>)
    ensures
        r == poll_result_of(received),
{
    match received {
        Ok(item) => Ok(item),
        Err(RecvFailure::Empty) => Err(PollError::Empty),
        Err(RecvFailure::Disconnected) => Err(PollError::Disconnected),
    }
}

/// What a send reports for what the queue did with the message.
pub fn send_outcome(sent: Result<(), SendFailure>) -> (r: SendOutcome)
    ensures
        r == send_outcome_of(sent),
{
    match sent {
        Ok(()) => SendOutcome::Sent,
        Err(SendFailure::Full) => SendOutcome::Full,
        Err(SendFailure::Disconnected) => SendOutcome::Disconnected,
    }
}

/// What the embedded side gets of a poll for tokens.
pub fn polled_tokens(polled: Result<IngestedTokens, PollError>) -> (r: Option<IngestedTokens>)
    ensures
        r == polled_tokens_of(polled),
{
    match polled {
        Ok(tokens) => Some(tokens),
        Err(_) => None,
    }
}

/// What the embedded side gets of a poll for a message.
pub fn polled_state(polled: Result<(MessageType, MessageState), PollError>) -> (r: Option<
    MessageState,
>)
    ensures
        r == polled_state_of(polled),
{
    match polled {
        Ok(message) => Some(message.1),
        Err(_) => None,
    }
}

/// What the embedded side can do with the channels.
pub trait ChannelInterface {
    /// Takes the next tokens from the host, if any are queued.
    fn receive_tokens_in_python(&mut self) -> Option<IngestedTokens>;

    /// Takes the next message from the host, if one is queued.
    fn receive_in_python(&mut self) -> Option<MessageState>;

    /// Hands a message to the host.
    fn send_in_rust(&mut self, message_type: MessageType, message_data: MessageState);
}

/// Up to four endpoints of the queues between the host and the embedded
/// side. Clones share the queues.
#[derive(Debug)]
pub struct ChannelHandler {
    /// Tokens from the host.
    pub token_receiver: Option<Receiver<IngestedTokens>>,
    /// The host's end of the queue of messages to the embedded side.
    pub py_message_sender: Option<Sender<(MessageType, MessageState)>>,
    /// Messages from the host.
    pub py_message_receiver: Option<Receiver<(MessageType, MessageState)>>,
    /// Messages to the host.
    pub message_sender: Option<Sender<(MessageType, MessageState)>>,
}

impl ChannelHandler {
    /// A handler over the endpoints given.
    pub fn new(
        token_receiver: Option<Receiver<IngestedTokens>>,
        py_message_sender: Option<Sender<(MessageType, MessageState)>>,
        py_message_receiver: Option<Receiver<(MessageType, MessageState)>>,
        message_sender: Option<Sender<(MessageType, MessageState)>>,
    ) -> (h: Self)
        ensures
            h.token_receiver == token_receiver,
            h.py_message_sender == py_message_sender,
            h.py_message_receiver == py_message_receiver,
            h.message_sender == message_sender,
    {
        ChannelHandler { py_message_sender, py_message_receiver, token_receiver, message_sender }
    }

    /// Polls the token stream without waiting. The poll fails with
    /// `NoChannel` exactly when the handler has no token receiver.
    pub fn poll_tokens(&self) -> (r: Result<IngestedTokens, PollError>)
        ensures
            r matches Err(PollError::NoChannel) <==> self.token_receiver is None,
    {
        match &self.token_receiver {
            Some(rx) => poll_result(try_recv(rx)),
            None => Err(PollError::NoChannel),
        }
    }

    /// Polls the messages from the host without waiting. The poll fails with
    /// `NoChannel` exactly when the handler has no message receiver.
    pub fn poll_message(&self) -> (r: Result<(MessageType, MessageState), PollError>)
        ensures
            r matches Err(PollError::NoChannel) <==> self.py_message_receiver is None,
    {
        match &self.py_message_receiver {
            Some(rx) => poll_result(try_recv(rx)),
            None => Err(PollError::NoChannel),
        }
    }

    /// Hands a message to the host without waiting. The outcome is
    /// `NoChannel` exactly when the handler has no sender to the host;
    /// otherwise the queue decides. The call never panics.
    pub fn try_send_in_rust(&self, message_type: MessageType, message_data: MessageState) -> (r:
        SendOutcome)
        ensures
            r is NoChannel <==> self.message_sender is None,
    {
        match &self.message_sender {
            Some(tx) => send_outcome(try_send(tx, (message_type, message_data))),
            None => SendOutcome::NoChannel,
        }
    }
}

impl Clone for ChannelHandler {
    /// Another handler on the same queues; it has the endpoints that this
    /// one has.
    fn clone(&self) -> (r: Self)
        ensures
            r.token_receiver is Some <==> self.token_receiver is Some,
            r.py_message_sender is Some <==> self.py_message_sender is Some,
            r.py_message_receiver is Some <==> self.py_message_receiver is Some,
            r.message_sender is Some <==> self.message_sender is Some,
    {
        ChannelHandler {
            token_receiver: match &self.token_receiver {
                Some(rx) => Some(clone_receiver(rx)),
                None => None,
            },
            py_message_sender: match &self.py_message_sender {
                Some(tx) => Some(clone_sender(tx)),
                None => None,
            },
            py_message_receiver: match &self.py_message_receiver {
                Some(rx) => Some(clone_receiver(rx)),
                None => None,
            },
            message_sender: match &self.message_sender {
                Some(tx) => Some(clone_sender(tx)),
                None => None,
            },
        }
    }
}

impl ChannelInterface for ChannelHandler {
    /// The next tokens, or `None` when none are queued, the senders are gone
    /// or the handler has no token receiver. Never waits.
    fn receive_tokens_in_python(&mut self) -> (r: Option<IngestedTokens>)
        ensures
            old(self).token_receiver is None ==> r is None,
            *final(self) == *old(self),
    {
        polled_tokens(self.poll_tokens())
    }

    /// The state of the next message, or `None` when none is queued, the
    /// senders are gone or the handler has no message receiver. Never waits.
    fn receive_in_python(&mut self) -> (r: Option<MessageState>)
        ensures
            old(self).py_message_receiver is None ==> r is None,
            *final(self) == *old(self),
    {
        polled_state(self.poll_message())
    }

    /// Hands the message to the host and forgets what became of it.
    fn send_in_rust(&mut self, message_type: MessageType, message_data: MessageState)
        ensures
            *final(self) == *old(self),
    {
        let _ = self.try_send_in_rust(message_type, message_data);
    }
}

/// The channels as the embedded side sees them.
#[derive(Debug)]
pub struct PyMessageInterface {
    channel_handler: ChannelHandler,
}

impl PyMessageInterface {
    /// The handler behind the interface.
    pub closed spec fn handler(&self) -> ChannelHandler {
        self.channel_handler
    }

    pub fn new(channel: ChannelHandler) -> (r: Self)
        ensures
            r.handler() == channel,
    {
        PyMessageInterface { channel_handler: channel }
    }

    /// The next tokens from the host, if any are queued; `None` at once when
    /// the handler has no token receiver.
    pub fn receive_tokens_in_python(&mut self) -> (r: Option<IngestedTokens>)
        ensures
            old(self).handler().token_receiver is None ==> r is None,
            final(self).handler() == old(self).handler(),
    {
        self.channel_handler.receive_tokens_in_python()
    }

    /// The state of the next message from the host, if one is queued; `None`
    /// at once when the handler has no message receiver.
    pub fn receive_in_python(&mut self) -> (r: Option<MessageState>)
        ensures
            old(self).handler().py_message_receiver is None ==> r is None,
            final(self).handler() == old(self).handler(),
    {
        self.channel_handler.receive_in_python()
    }

    /// Hands a message to the host without waiting; `NoChannel` exactly when
    /// the handler has no sender to the host.
    pub fn send_in_rust(&mut self, message_type: MessageType, message_data: MessageState) -> (r:
        SendOutcome)
        ensures
            r is NoChannel <==> old(self).handler().message_sender is None,
            final(self).handler() == old(self).handler(),
    {
        self.channel_handler.try_send_in_rust(message_type, message_data)
    }
}

impl Clone for PyMessageInterface {
    fn clone(&self) -> (r: Self)
        ensures
            r.handler().message_sender is Some <==> self.handler().message_sender is Some,
            r.handler().token_receiver is Some <==> self.handler().token_receiver is Some,
            r.handler().py_message_receiver is Some <==> self.handler().py_message_receiver is Some,
    {
        PyMessageInterface { channel_handler: self.channel_handler.clone() }
    }
}

} // verus!
