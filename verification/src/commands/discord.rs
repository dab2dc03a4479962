//! returns link to the SPARCL discord
//!
//! usage: ```!discord```

use crate::commands::ChatCommand;
use crate::commands::default_limit;
use crate::commands::default_rate_limit;
use crate::commands::two_names;
use crate::message::ChatMessage;
use crate::message::MessageView;
use crate::message::Response;
use crate::message::ResponseView;
use crate::message::one_answer;
use crate::spam::RateLimit;
use vstd::prelude::*;

verus! {

/// The `discord` command. It keeps no state.
pub struct MostlyDiscord {}

impl ChatCommand for MostlyDiscord {
    open spec fn aliases() -> Seq<Seq<char>> {
        seq!["discord"@, "disc"@]
    }

    open spec fn usage(&self) -> Seq<char> {
        "usage: !discord"@
    }

    open spec fn limit(&self) -> RateLimit {
        default_limit()
    }

    open spec fn handles(
        &self,
        ctx: MessageView,
        after: Self,
        outcome: Result<ResponseView, Seq<char>>,
    ) -> bool {
        outcome == Ok::<ResponseView, Seq<char>>(
            one_answer(ctx, "join the SPARCL discord: https://discord.gg/aMAAbZy4QD"@, false),
        )
    }

    fn new() -> Self {
        Self {  }
    }

    fn names() -> (names: Vec<String>) {
        two_names("discord", "disc")
    }

    fn rate_limit(&self) -> (limit: RateLimit) {
        default_rate_limit()
    }

    fn handle(&mut self, ctx: &ChatMessage) -> (outcome: Result<Response, String>) {
        Ok(
            Response::answer(ctx, "join the SPARCL discord: https://discord.gg/aMAAbZy4QD".to_owned(), false),
        )
    }

    fn help(&self) -> (usage: String) {
        "usage: !discord".to_owned()
    }
}

} // verus!
