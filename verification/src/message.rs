//! What comes in from chat and what goes out to it.

use crate::text::texts;
use vstd::prelude::*;

verus! {

/// Someone in the chat.
#[derive(Debug, Clone, PartialEq, Eq)]
pub struct User {
    /// The id the platform gave the user.
    pub id: String,
    /// The name the user shows in chat.
    pub name: String,
}

/// A chat message, with what the bot reads of it.
#[derive(Debug, Clone, PartialEq, Eq)]
pub struct ChatMessage {
    /// The channel the message was written in.
    pub broadcaster: User,
    /// Who wrote it.
    pub chatter: User,
    /// The id of the message.
    pub message_id: String,
    /// What was written.
    pub text: String,
    /// The badge sets the author wears, such as `vip` or `subscriber`.
    pub badges: Vec<String>,
    /// Whether the author moderates the channel.
    pub moderator: bool,
}

/// A chat message as text.
pub struct MessageView {
    pub broadcaster_id: Seq<char>,
    pub chatter_id: Seq<char>,
    pub chatter_name: Seq<char>,
    pub message_id: Seq<char>,
    pub text: Seq<char>,
    pub badges: Seq<Seq<char>>,
    pub moderator: bool,
}

impl View for ChatMessage {
    type V = MessageView;

    open spec fn view(&self) -> MessageView {
        MessageView {
            broadcaster_id: self.broadcaster.id@,
            chatter_id: self.chatter.id@,
            chatter_name: self.chatter.name@,
            message_id: self.message_id@,
            text: self.text@,
            badges: texts(self.badges@),
            moderator: self.moderator,
        }
    }
}

/// A message for the bot to send.
#[derive(Debug, Clone, PartialEq, Eq)]
pub struct Reply {
    /// What to write.
    pub body: String,
    /// The id of the message this one answers, if it answers one.
    pub parent: Option<String>,
}

/// A message for the bot to send, as text.
pub struct ReplyView {
    pub body: Seq<char>,
    pub parent: Option<Seq<char>>,
}

impl View for Reply {
    type V = ReplyView;

    open spec fn view(&self) -> ReplyView {
        ReplyView {
            body: self.body@,
            parent: match self.parent {
                Some(id) => Some(id@),
                None => None,
            },
        }
    }
}

/// Each of `replies` as text.
pub open spec fn reply_views(replies: Seq<Reply>) -> Seq<ReplyView> {
    Seq::new(replies.len(), |i: int| replies[i]@)
}

/// An answer to `ctx` that says `body`.
pub open spec fn answer_to(ctx: MessageView, body: Seq<char>) -> ReplyView {
    ReplyView { body, parent: Some(ctx.message_id) }
}

/// A message that says `body` and answers nothing.
pub open spec fn announcement(body: Seq<char>) -> ReplyView {
    ReplyView { body, parent: None }
}

impl Reply {
    /// A reply to the message `ctx` that says `body`.
    pub fn to(ctx: &ChatMessage, body: String) -> (reply: Reply)
        ensures
            reply@ == answer_to(ctx@, body@),
    {
        Reply { body, parent: Some(ctx.message_id.clone()) }
    }

    /// A message to the chat that says `body` and answers nothing.
    pub fn plain(body: String) -> (reply: Reply)
        ensures
            reply@ == announcement(body@),
    {
        Reply { body, parent: None }
    }
}

/// The one reply `reply`, as a list.
pub fn only(reply: Reply) -> (replies: Vec<Reply>)
    ensures
        reply_views(replies@) == seq![reply@],
{
    let mut replies: Vec<Reply> = Vec::new();
    replies.push(reply);
    assert(reply_views(replies@) =~= seq![reply@]);
    replies
}

/// What a command answers: the messages to send, and whether the command has
/// failed if one of them cannot be sent.
#[derive(Debug, Clone, PartialEq, Eq)]
pub struct Response {
    /// The messages to send, in this order.
    pub replies: Vec<Reply>,
    /// Whether a message that cannot be sent makes the command fail.
    pub must_arrive: bool,
}

/// What a command answers, as text.
pub struct ResponseView {
    pub replies: Seq<ReplyView>,
    pub must_arrive: bool,
}

impl View for Response {
    type V = ResponseView;

    open spec fn view(&self) -> ResponseView {
        ResponseView { replies: reply_views(self.replies@), must_arrive: self.must_arrive }
    }
}

/// What became of a command: its answer, or why it failed.
pub open spec fn outcome_view(outcome: Result<Response, String>) -> Result<ResponseView, Seq<char>> {
    match outcome {
        Ok(response) => Ok(response@),
        Err(why) => Err(why@),
    }
}

/// The answer that is the one reply `body` to `ctx`.
pub open spec fn one_answer(ctx: MessageView, body: Seq<char>, must_arrive: bool) -> ResponseView {
    ResponseView { replies: seq![answer_to(ctx, body)], must_arrive }
}

/// The answer that is the one message `body` to the chat.
pub open spec fn one_announcement(body: Seq<char>, must_arrive: bool) -> ResponseView {
    ResponseView { replies: seq![announcement(body)], must_arrive }
}

impl Response {
    /// The answer that is the one reply `body` to `ctx`.
    pub fn answer(ctx: &ChatMessage, body: String, must_arrive: bool) -> (response: Response)
        ensures
            response@ == one_answer(ctx@, body@, must_arrive),
    {
        Response { replies: only(Reply::to(ctx, body)), must_arrive }
    }

    /// The answer that is the one message `body` to the chat.
    pub fn announce(body: String, must_arrive: bool) -> (response: Response)
        ensures
            response@ == one_announcement(body@, must_arrive),
    {
        Response { replies: only(Reply::plain(body)), must_arrive }
    }
}

} // verus!
