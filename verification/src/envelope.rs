//! The container in which the receive loop hands a message to an actor.

use vstd::prelude::*;
use crate::addr::Addr;

verus! {

/// How a message was sent, and by whom.
#[derive(Clone, Copy, Debug, PartialEq, Eq, Structural)]
pub enum MessageKind {
    /// An ordinary message: no reply is awaited.
    Regular { sender: Addr },
    /// A request: `token` identifies the reply that `sender` awaits.
    Request { sender: Addr, token: u64 },
}

impl MessageKind {
    /// The address of the actor that sent the message.
    pub open spec fn spec_sender(&self) -> Addr {
        match *self {
            MessageKind::Regular { sender } => sender,
            MessageKind::Request { sender, .. } => sender,
        }
    }

    /// The address of the actor that sent the message.
    #[verifier::when_used_as_spec(spec_sender)]
    pub fn sender(&self) -> (sender: Addr)
        ensures
            sender == self.sender(),
    {
        match *self {
            MessageKind::Regular { sender } => sender,
            MessageKind::Request { sender, .. } => sender,
        }
    }
}

/// A message together with how it was sent.
#[derive(Debug, PartialEq, Eq)]
pub struct Envelope<M> {
    pub message: M,
    pub kind: MessageKind,
}

impl<M> Envelope<M> {
    /// Wraps `message`, sent as `kind` says.
    pub fn new(message: M, kind: MessageKind) -> (envelope: Envelope<M>)
        ensures
            envelope == (Envelope { message, kind }),
    {
        Envelope { message, kind }
    }

    /// The message inside.
    pub fn message(&self) -> (message: &M)
        ensures
            *message == self.message,
    {
        &self.message
    }

    /// How the message was sent.
    pub fn kind(&self) -> (kind: MessageKind)
        ensures
            kind == self.kind,
    {
        self.kind
    }

    /// The address of the actor that sent the message.
    pub fn sender(&self) -> (sender: Addr)
        ensures
            sender == self.kind.sender(),
    {
        self.kind.sender()
    }

    /// Gives up the envelope for the message inside.
    pub fn into_message(self) -> (message: M)
        ensures
            message == self.message,
    {
        self.message
    }
}

} // verus!
