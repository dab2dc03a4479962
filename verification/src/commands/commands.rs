//! returns list of commands
//!
//! usage: ```!commands```

use crate::commands::ChatCommand;
use crate::commands::default_limit;
use crate::commands::default_rate_limit;
use crate::commands::two_names;
use crate::message::ChatMessage;
use crate::message::MessageView;
use crate::message::Response;
use crate::message::ResponseView;
use crate::message::one_answer;
use crate::spam::RateLimit;
use vstd::prelude::*;

verus! {

/// The `commands` command. It keeps no state.
pub struct MostlyCommands {}

impl ChatCommand for MostlyCommands {
    open spec fn aliases() -> Seq<Seq<char>> {
        seq!["commands"@, "cmds"@]
    }

    open spec fn usage(&self) -> Seq<char> {
        "usage: !commands"@
    }

    open spec fn limit(&self) -> RateLimit {
        default_limit()
    }

    open spec fn handles(
        &self,
        ctx: MessageView,
        after: Self,
        outcome: Result<ResponseView, Seq<char>>,
    ) -> bool {
        outcome == Ok::<ResponseView, Seq<char>>(
            one_answer(ctx, "https://docs.rs/mostlybot/latest/mostlybot/commands/index.html"@, true),
        )
    }

    fn new() -> Self {
        Self {  }
    }

    fn names() -> (names: Vec<String>) {
        two_names("commands", "cmds")
    }

    fn rate_limit(&self) -> (limit: RateLimit) {
        default_rate_limit()
    }

    fn handle(&mut self, ctx: &ChatMessage) -> (outcome: Result<Response, String>) {
        Ok(
            Response::answer(ctx, "https://docs.rs/mostlybot/latest/mostlybot/commands/index.html".to_owned(), true),
        )
    }

    fn help(&self) -> (usage: String) {
        "usage: !commands".to_owned()
    }
}

} // verus!
