//! A stand-in for the chat, for trying the bot out without one.

use crate::dispatch::Delivery;
use crate::dispatch::DeliveryView;
use crate::message::reply_views;
use crate::message::Reply;
use crate::message::ReplyView;
use crate::message::Response;
use vstd::prelude::*;

verus! {

/// The number of replies that `replies` begins with: messages that answer
/// another one.
pub open spec fn leading_replies(replies: Seq<ReplyView>) -> nat
    decreases replies.len(),
{
    if replies.len() > 0 && replies[0].parent is Some {
        1 + leading_replies(replies.drop_first())
    } else {
        0
    }
}

/// A chat that is not there. It takes replies to a message and keeps them; a
/// message that answers nothing is more than it can do.
pub struct MockTwitchEventSubApi {
    sent: Vec<Reply>,
}

impl View for MockTwitchEventSubApi {
    type V = Seq<ReplyView>;

    closed spec fn view(&self) -> Seq<ReplyView> {
        reply_views(self.sent@)
    }
}

impl MockTwitchEventSubApi {
    /// A chat that has been sent nothing yet.
    pub fn init_twitch_api() -> (api: MockTwitchEventSubApi)
        ensures
            api@ == Seq::<ReplyView>::empty(),
    {
        let api = MockTwitchEventSubApi { sent: Vec::new() };
        assert(api@ =~= Seq::<ReplyView>::empty());
        api
    }

    /// Takes the message `message` in reply to the message
    /// `reply_message_parent_id`. Answers with an empty acknowledgement.
    pub fn send_chat_message_with_reply(&mut self, message: &str, reply_message_parent_id: &str) -> (res:
        Result<String, String>)
        ensures
            res matches Ok(ack) && ack@ == Seq::<char>::empty(),
            final(self)@ == old(self)@.push(
                ReplyView { body: message@, parent: Some(reply_message_parent_id@) },
            ),
    {
        let ghost before = self@;
        let reply = Reply {
            body: message.to_owned(),
            parent: Some(reply_message_parent_id.to_owned()),
        };
        self.sent.push(reply);
        assert(self@ =~= before.push(reply@));
        Ok(String::new())
    }

    /// Everything that was sent, in order.
    pub fn sent(&self) -> (sent: &Vec<Reply>)
        ensures
            reply_views(sent@) == self@,
    {
        &self.sent
    }

    /// Sends the answer of a command, message by message, and reports how that
    /// went. The sending breaks off at the first message that answers nothing.
    pub fn deliver(&mut self, response: &Response) -> (delivery: Delivery)
        ensures
            final(self)@ == old(self)@ + response@.replies.take(
                leading_replies(response@.replies) as int,
            ),
            delivery@ == if leading_replies(response@.replies) == response@.replies.len() {
                DeliveryView::Sent
            } else {
                DeliveryView::Aborted
            },
    {
        let ghost before = self@;
        let ghost all = response@.replies;
        let mut i: usize = 0;
        assert(all.skip(0) =~= all);
        assert(before + all.take(0) =~= before);
        while i < response.replies.len()
            invariant
                i <= response.replies.len(),
                all == response@.replies,
                all.len() == response.replies.len(),
                before == old(self)@,
                self@ == before + all.take(i as int),
                leading_replies(all) == i + leading_replies(all.skip(i as int)),
            decreases response.replies.len() - i,
        {
            let reply: &Reply = &response.replies[i];
            assert(all[i as int] == reply@);
            assert(all.skip(i as int)[0] == all[i as int]);
            match &reply.parent {
                Some(parent) => {
                    let _ = self.send_chat_message_with_reply(reply.body.as_str(), parent.as_str());
                    proof {
                        assert(all.skip(i as int).drop_first() =~= all.skip(i + 1));
                        assert(before + all.take(i + 1) =~= (before + all.take(i as int)).push(
                            all[i as int],
                        ));
                    }
                },
                None => {
                    return Delivery::Aborted;
                },
            }
            i = i + 1;
        }
        assert(all.skip(i as int) =~= Seq::<ReplyView>::empty());
        Delivery::Sent
    }
}

} // verus!
