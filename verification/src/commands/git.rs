//! returns link to maxi's git
//!
//! usage: ```!git```

use crate::commands::ChatCommand;
use crate::commands::default_limit;
use crate::commands::default_rate_limit;
use crate::commands::two_names;
use crate::message::ChatMessage;
use crate::message::MessageView;
use crate::message::Response;
use crate::message::ResponseView;
use crate::message::one_answer;
use crate::spam::RateLimit;
use vstd::prelude::*;

verus! {

/// The `git` command. It keeps no state.
pub struct MostlyGit {}

impl ChatCommand for MostlyGit {
    open spec fn aliases() -> Seq<Seq<char>> {
        seq!["git"@, "github"@]
    }

    open spec fn usage(&self) -> Seq<char> {
        "usage: !git"@
    }

    open spec fn limit(&self) -> RateLimit {
        default_limit()
    }

    open spec fn handles(
        &self,
        ctx: MessageView,
        after: Self,
        outcome: Result<ResponseView, Seq<char>>,
    ) -> bool {
        outcome == Ok::<ResponseView, Seq<char>>(
            one_answer(ctx, "check out maxi's git: https://github.com/mostlymaxi"@, false),
        )
    }

    fn new() -> Self {
        Self {  }
    }

    fn names() -> (names: Vec<String>) {
        two_names("git", "github")
    }

    fn rate_limit(&self) -> (limit: RateLimit) {
        default_rate_limit()
    }

    fn handle(&mut self, ctx: &ChatMessage) -> (outcome: Result<Response, String>) {
        Ok(
            Response::answer(ctx, "check out maxi's git: https://github.com/mostlymaxi".to_owned(), false),
        )
    }

    fn help(&self) -> (usage: String) {
        "usage: !git".to_owned()
    }
}

} // verus!
