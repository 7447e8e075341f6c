//! The event handler: one decision per gateway event, made from the event
//! and the reply table alone.

use vstd::prelude::*;
use crate::config::Messages;

verus! {

/// The message text that asks the bot to introduce itself.
pub const ABOUT_TRIGGER: &'static str = "!about";

/// An event delivered by the gateway client.
pub enum Event {
    /// The session is established; `user_name` is the bot's display name.
    Ready { user_name: String },
    /// A message with text `content` arrived in channel `channel_id`.
    Message { channel_id: u64, content: String },
}

/// A message to send into a channel.
pub struct Reply {
    pub channel_id: u64,
    pub text: String,
}

/// What the caller is to do for one event.
pub enum Action {
    /// Nothing at all.
    Ignore,
    /// Report that the session is active under the name `user_name`.
    AnnounceReady { user_name: String },
    /// Send the reply.
    Send(Reply),
}

/// What a failed send leaves to report; the handler goes on with the next event.
pub struct SendFailure {
    pub channel_id: u64,
    pub cause: String,
}

/// The text of the reply to a message with text `content`, given the
/// configured `about` text: `about` for exactly `!about`, nothing otherwise.
pub open spec fn reply_text(about: Seq<char>, content: Seq<char>) -> Option<Seq<char>> {
    if content == ABOUT_TRIGGER@ {
        Some(about)
    } else {
        None
    }
}

/// The handler: it holds the reply table and nothing else.
pub struct Bot {
    pub messages: Messages,
}

impl Reply {
    /// Whether this reply goes to `channel_id` with text `text`.
    pub open spec fn is_reply(&self, channel_id: u64, text: Seq<char>) -> bool {
        self.channel_id == channel_id && self.text@ == text
    }
}

impl Bot {
    pub fn new(messages: Messages) -> (r: Bot)
        ensures
            r.messages == messages,
    {
        Bot { messages }
    }

    /// The configured `about` text.
    pub open spec fn about(&self) -> Seq<char> {
        self.messages.commands.about@
    }

    /// Whether `a` is the action owed for event `e`.
    pub open spec fn owes(&self, e: Event, a: Action) -> bool {
        match e {
            Event::Ready { user_name } => match a {
                Action::AnnounceReady { user_name: n } => n@ == user_name@,
                _ => false,
            },
            Event::Message { channel_id, content } => match reply_text(self.about(), content@) {
                Some(text) => match a {
                    Action::Send(reply) => reply.is_reply(channel_id, text),
                    _ => false,
                },
                None => a is Ignore,
            },
        }
    }

    /// The reply to a message with text `content` from channel `channel_id`:
    /// the `about` text, into that same channel, when `content` is exactly
    /// `!about`, and none otherwise.
    pub fn message(&self, channel_id: u64, content: &String) -> (r: Option<Reply>)
        ensures
            content@ == ABOUT_TRIGGER@ ==> r is Some && r->0.is_reply(channel_id, self.about()),
            content@ != ABOUT_TRIGGER@ ==> r is None,
    {
        let trigger = ABOUT_TRIGGER.to_owned();
        if *content == trigger {
            Some(Reply { channel_id, text: self.messages.commands.about.clone() })
        } else {
            None
        }
    }

    /// The announcement for an established session, under the bot's name.
    pub fn ready(&self, user_name: &String) -> (r: Action)
        ensures
            r matches Action::AnnounceReady { user_name: n } && n@ == user_name@,
    {
        Action::AnnounceReady { user_name: user_name.clone() }
    }

    /// The action owed for one event.
    pub fn handle(&self, event: &Event) -> (r: Action)
        ensures
            self.owes(*event, r),
    {
        match event {
            Event::Ready { user_name } => self.ready(user_name),
            Event::Message { channel_id, content } => match self.message(*channel_id, content) {
                Some(reply) => Action::Send(reply),
                None => Action::Ignore,
            },
        }
    }

    /// What to report once a send has completed: `None` when it succeeded,
    /// the failure with its cause when it did not. It changes nothing in the
    /// handler, which is ready for the next event either way.
    pub fn sent(&self, reply: &Reply, outcome: Result<(), String>) -> (r: Option<SendFailure>)
        ensures
            outcome is Ok ==> r is None,
            outcome is Err ==> r is Some && r->0.channel_id == reply.channel_id
                && r->0.cause@ == outcome->Err_0@,
    {
        match outcome {
            Ok(()) => None,
            Err(cause) => Some(SendFailure { channel_id: reply.channel_id, cause }),
        }
    }
}

/// Only a message whose text is exactly `!about` is answered, and the
/// answer is the single reply of the configured `about` text into the
/// channel the message came from; any other text, however close, gets no
/// reply.
pub proof fn lemma_only_exact_trigger_answers(bot: Bot, channel_id: u64, content: String, a: Action)
    requires
        bot.owes(Event::Message { channel_id, content }, a),
    ensures
        content@ == ABOUT_TRIGGER@ <==> a is Send,
        a is Send ==> a->Send_0.is_reply(channel_id, bot.about()),
{
}

/// A failed send leaves nothing behind: the action owed for any later event
/// is the one owed by a handler built afresh from the same reply table.
pub proof fn lemma_failed_send_is_contained(bot: Bot, fresh: Bot, later: Event, a: Action)
    requires
        bot.messages == fresh.messages,
    ensures
        bot.owes(later, a) <==> fresh.owes(later, a),
{
}

} // verus!
