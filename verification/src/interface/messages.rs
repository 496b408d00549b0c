//! Messages domain: what the script answers to messages from other modules.

use vstd::prelude::*;

verus! {

/// A message as far as the script tells messages apart.
#[derive(Clone, Copy, PartialEq, Eq, Structural, Debug)]
pub enum IncomingMessage {
    /// The gear that the automatic gearbox has engaged.
    CurrentGear(i8),
    /// Whether a ticket machine is on board.
    AlmexAvailable(bool),
    /// Any other message.
    Other,
}

/// What the script does with a message: whether it handled it, the gear to
/// show on the dashboard, and whether to record that a ticket machine is on
/// board.
#[derive(Clone, Copy, PartialEq, Eq, Structural, Debug)]
pub struct MessageReaction {
    pub handled: bool,
    pub current_gear: Option<i8>,
    pub has_almex: bool,
}

/// The reaction to a message: a gear is shown, a ticket machine that
/// reports itself available is recorded, both are handled; other messages
/// are left alone.
pub open spec fn spec_message_reaction(msg: IncomingMessage) -> MessageReaction {
    match msg {
        IncomingMessage::CurrentGear(g) => MessageReaction { handled: true, current_gear: Some(g), has_almex: false },
        IncomingMessage::AlmexAvailable(a) => MessageReaction { handled: true, current_gear: None, has_almex: a },
        IncomingMessage::Other => MessageReaction { handled: false, current_gear: None, has_almex: false },
    }
}

/// Message handling of the nd313.
#[derive(Clone, Copy, PartialEq, Eq, Structural, Debug, Default)]
pub struct Nd313MessageInterface;

impl Nd313MessageInterface {
    /// The reaction to `msg`.
    pub fn on_message(&self, msg: IncomingMessage) -> (r: MessageReaction)
        ensures
            r == spec_message_reaction(msg),
    {
        match msg {
            IncomingMessage::CurrentGear(g) => MessageReaction { handled: true, current_gear: Some(g), has_almex: false },
            IncomingMessage::AlmexAvailable(a) => MessageReaction { handled: true, current_gear: None, has_almex: a },
            IncomingMessage::Other => MessageReaction { handled: false, current_gear: None, has_almex: false },
        }
    }
}

/// The reaction in terms of the message: it is handled exactly when it is a
/// gear or a ticket machine message; a gear is shown exactly for a gear
/// message, and it is that gear; a ticket machine is recorded exactly for a
/// message that reports one available. An unhandled message changes nothing.
pub proof fn lemma_reaction_follows_message(msg: IncomingMessage)
    ensures
        spec_message_reaction(msg).handled <==> msg != IncomingMessage::Other,
        spec_message_reaction(msg).current_gear matches Some(g) ==> msg == IncomingMessage::CurrentGear(g),
        msg matches IncomingMessage::CurrentGear(g) ==> spec_message_reaction(msg).current_gear == Some(g),
        spec_message_reaction(msg).current_gear is None <==> !(msg is CurrentGear),
        spec_message_reaction(msg).has_almex <==> msg == IncomingMessage::AlmexAvailable(true),
        !spec_message_reaction(msg).handled ==> (spec_message_reaction(msg).current_gear is None
            && !spec_message_reaction(msg).has_almex),
{
}

} // verus!
