//! What the bot does with the events of the chat platform.

use vstd::prelude::*;

verus! {

/// An event of the chat platform, reduced to what the bot decides on.
#[derive(Clone, Copy, Debug, PartialEq, Eq, Structural)]
pub enum Incoming {
    /// The connection is up.
    Ready,
    /// A message was posted.
    Message { author_is_bot: bool },
    /// A member used a component of a message.
    Component,
    /// Anything else.
    Other,
}

/// What the bot does next.
#[derive(Clone, Copy, Debug, PartialEq, Eq, Structural)]
pub enum Reaction {
    /// Show the presence; register the commands unless debugging.
    Announce { register_commands: bool },
    /// Find out whether the message mentions the bot, then greet.
    CheckMention,
    /// Hand the interaction to the components, in their order.
    Dispatch,
    /// Nothing.
    Nothing,
}

/// The handler of the events of the chat platform.
#[derive(Clone, Copy, Debug)]
pub struct EventHandler {
    /// Whether the bot runs for debugging.
    pub app_debug: bool,
}

/// The waving hand with which a mention is answered.
pub const GREETING: char = '\u{1F44B}';

impl EventHandler {
    /// Decides what to do with an event. Commands are registered when the
    /// connection comes up, unless the bot runs for debugging; messages of
    /// bots are ignored; every use of a component is dispatched.
    pub fn raw_event(&self, incoming: Incoming) -> (reaction: Reaction)
        ensures
            reaction == match incoming {
                Incoming::Ready => Reaction::Announce { register_commands: !self.app_debug },
                Incoming::Message { author_is_bot } => if author_is_bot {
                    Reaction::Nothing
                } else {
                    Reaction::CheckMention
                },
                Incoming::Component => Reaction::Dispatch,
                Incoming::Other => Reaction::Nothing,
            },
    {
        match incoming {
            Incoming::Ready => Reaction::Announce { register_commands: !self.app_debug },
            Incoming::Message { author_is_bot } => {
                if author_is_bot {
                    Reaction::Nothing
                } else {
                    Reaction::CheckMention
                }
            },
            Incoming::Component => Reaction::Dispatch,
            Incoming::Other => Reaction::Nothing,
        }
    }

    /// The presence that is shown once the connection is up.
    pub fn presence() -> (text: String)
        ensures
            text@ == "Playing with Rust Code"@,
    {
        String::from_str("Playing with Rust Code")
    }

    /// The reaction to a message: a greeting where it mentions the bot.
    pub fn greeting(mentioned: bool) -> (emoji: Option<char>)
        ensures
            emoji == if mentioned {
                Some(GREETING)
            } else {
                None
            },
    {
        if mentioned {
            Some(GREETING)
        } else {
            None
        }
    }
}

} // verus!
