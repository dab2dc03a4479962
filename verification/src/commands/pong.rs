//! command that replies to pong
//!
//! usage: ```!pong```

use crate::commands::ChatCommand;
use crate::commands::default_limit;
use crate::commands::default_rate_limit;
use crate::commands::one_name;
use crate::message::ChatMessage;
use crate::message::MessageView;
use crate::message::Response;
use crate::message::ResponseView;
use crate::message::one_answer;
use crate::spam::RateLimit;
use vstd::prelude::*;

verus! {

/// The `pong` command. It keeps no state.
pub struct MostlyPong {}

impl ChatCommand for MostlyPong {
    open spec fn aliases() -> Seq<Seq<char>> {
        seq!["pong"@]
    }

    open spec fn usage(&self) -> Seq<char> {
        "usage: !pong"@
    }

    open spec fn limit(&self) -> RateLimit {
        default_limit()
    }

    open spec fn handles(
        &self,
        ctx: MessageView,
        after: Self,
        outcome: Result<ResponseView, Seq<char>>,
    ) -> bool {
        outcome == Ok::<ResponseView, Seq<char>>(
            one_answer(ctx, "FeelsWeirdMan"@, true),
        )
    }

    fn new() -> Self {
        Self {  }
    }

    fn names() -> (names: Vec<String>) {
        one_name("pong")
    }

    fn rate_limit(&self) -> (limit: RateLimit) {
        default_rate_limit()
    }

    fn handle(&mut self, ctx: &ChatMessage) -> (outcome: Result<Response, String>) {
        Ok(
            Response::answer(ctx, "FeelsWeirdMan".to_owned(), true),
        )
    }

    fn help(&self) -> (usage: String) {
        "usage: !pong".to_owned()
    }
}

} // verus!
