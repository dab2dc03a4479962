//! test command that replies pong
//!
//! usage: ```!ping```

use crate::commands::default_limit;
use crate::commands::default_rate_limit;
use crate::commands::one_name;
use crate::commands::ChatCommand;
use crate::message::one_answer;
use crate::message::ChatMessage;
use crate::message::MessageView;
use crate::message::Response;
use crate::message::ResponseView;
use crate::spam::RateLimit;
use vstd::prelude::*;

verus! {

/// The ping command. It keeps no state.
pub struct MostlyPing {}

impl ChatCommand for MostlyPing {
    open spec fn aliases() -> Seq<Seq<char>> {
        seq!["ping"@]
    }

    open spec fn usage(&self) -> Seq<char> {
        "usage: !ping"@
    }

    open spec fn limit(&self) -> RateLimit {
        default_limit()
    }

    open spec fn handles(
        &self,
        ctx: MessageView,
        after: Self,
        outcome: Result<ResponseView, Seq<char>>,
    ) -> bool {
        outcome == Ok::<ResponseView, Seq<char>>(one_answer(ctx, "pong"@, true))
    }

    fn new() -> Self {
        Self {  }
    }

    fn names() -> (names: Vec<String>) {
        one_name("ping")
    }

    fn rate_limit(&self) -> (limit: RateLimit) {
        default_rate_limit()
    }

    fn handle(&mut self, ctx: &ChatMessage) -> (outcome: Result<Response, String>) {
        Ok(Response::answer(ctx, "pong".to_owned(), true))
    }

    fn help(&self) -> (usage: String) {
        "usage: !ping".to_owned()
    }
}

} // verus!
