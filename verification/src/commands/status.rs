//! sends current bot status
//!
//! usage: ```!status```

use crate::commands::ChatCommand;
use crate::commands::two_names;
use crate::message::ChatMessage;
use crate::message::MessageView;
use crate::message::Response;
use crate::message::ResponseView;
use crate::message::one_announcement;
use crate::spam::RateLimit;
use crate::time::duration_from;
use vstd::prelude::*;

verus! {

/// The `status` command. It keeps no state.
pub struct MostlyStatus {}

impl ChatCommand for MostlyStatus {
    open spec fn aliases() -> Seq<Seq<char>> {
        seq!["status"@, "mostlystatus"@]
    }

    open spec fn usage(&self) -> Seq<char> {
        "usage: !status"@
    }

    open spec fn limit(&self) -> RateLimit {
        RateLimit::of(5, 1_000_000_000)
    }

    open spec fn handles(
        &self,
        ctx: MessageView,
        after: Self,
        outcome: Result<ResponseView, Seq<char>>,
    ) -> bool {
        outcome == Ok::<ResponseView, Seq<char>>(
            one_announcement("Bot is offline"@, false),
        )
    }

    fn new() -> Self {
        Self {  }
    }

    fn names() -> (names: Vec<String>) {
        two_names("status", "mostlystatus")
    }

    fn rate_limit(&self) -> (limit: RateLimit) {
        RateLimit::new(5, duration_from(1, 0))
    }

    fn handle(&mut self, ctx: &ChatMessage) -> (outcome: Result<Response, String>) {
        Ok(
            Response::announce("Bot is offline".to_owned(), false),
        )
    }

    fn help(&self) -> (usage: String) {
        "usage: !status".to_owned()
    }
}

} // verus!
