//! get link to mostlybot git
//!
//! usage: ```!mostlybot```

use crate::commands::ChatCommand;
use crate::commands::default_limit;
use crate::commands::default_rate_limit;
use crate::commands::two_names;
use crate::message::ChatMessage;
use crate::message::MessageView;
use crate::message::Response;
use crate::message::ResponseView;
use crate::message::one_answer;
use crate::spam::RateLimit;
use vstd::prelude::*;

verus! {

/// The `mostlybot` command. It keeps no state.
pub struct MostlyBot {}

impl ChatCommand for MostlyBot {
    open spec fn aliases() -> Seq<Seq<char>> {
        seq!["mostlybot"@, "bot"@]
    }

    open spec fn usage(&self) -> Seq<char> {
        "usage: !mostlybot"@
    }

    open spec fn limit(&self) -> RateLimit {
        default_limit()
    }

    open spec fn handles(
        &self,
        ctx: MessageView,
        after: Self,
        outcome: Result<ResponseView, Seq<char>>,
    ) -> bool {
        outcome == Ok::<ResponseView, Seq<char>>(
            one_answer(ctx, "contribute to the mostlybot here!: https://github.com/mostlymaxi/twitch-interactive-things/tree/main/twitch/bot"@, true),
        )
    }

    fn new() -> Self {
        Self {  }
    }

    fn names() -> (names: Vec<String>) {
        two_names("mostlybot", "bot")
    }

    fn rate_limit(&self) -> (limit: RateLimit) {
        default_rate_limit()
    }

    fn handle(&mut self, ctx: &ChatMessage) -> (outcome: Result<Response, String>) {
        Ok(
            Response::answer(ctx, "contribute to the mostlybot here!: https://github.com/mostlymaxi/twitch-interactive-things/tree/main/twitch/bot".to_owned(), true),
        )
    }

    fn help(&self) -> (usage: String) {
        "usage: !mostlybot".to_owned()
    }
}

} // verus!
