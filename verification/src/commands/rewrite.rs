//! essential command for every rustacean
//!
//! usage: ```!rewrite <args>```

use crate::commands::default_limit;
use crate::commands::default_rate_limit;
use crate::commands::one_name;
use crate::commands::ChatCommand;
use crate::message::one_answer;
use crate::message::ChatMessage;
use crate::message::MessageView;
use crate::message::Response;
use crate::message::ResponseView;
use crate::spam::RateLimit;
use crate::text::glue;
use crate::text::join_from;
use crate::text::joined;
use crate::text::split_words;
use crate::text::words;
use vstd::prelude::*;

verus! {

/// The `rewrite` command. It keeps no state.
pub struct MostlyRewrite {}

impl MostlyRewrite {
    /// What stands behind the command in `text`: its words but the first,
    /// with one blank between each two.
    pub open spec fn argument(text: Seq<char>) -> Seq<char> {
        joined(words(text), 1, " "@)
    }
}

impl ChatCommand for MostlyRewrite {
    open spec fn aliases() -> Seq<Seq<char>> {
        seq!["rewrite"@]
    }

    open spec fn usage(&self) -> Seq<char> {
        "usage: !rewrite <arguments>"@
    }

    open spec fn limit(&self) -> RateLimit {
        default_limit()
    }

    open spec fn handles(
        &self,
        ctx: MessageView,
        after: Self,
        outcome: Result<ResponseView, Seq<char>>,
    ) -> bool {
        if Self::argument(ctx.text).len() == 0 {
            outcome == Err::<ResponseView, Seq<char>>("No argument provided"@)
        } else {
            outcome == Ok::<ResponseView, Seq<char>>(
                one_answer(ctx, Self::argument(ctx.text) + " has been rewritten in rust"@, true),
            )
        }
    }

    fn new() -> Self {
        Self {  }
    }

    fn names() -> (names: Vec<String>) {
        one_name("rewrite")
    }

    fn rate_limit(&self) -> (limit: RateLimit) {
        default_rate_limit()
    }

    fn handle(&mut self, ctx: &ChatMessage) -> (outcome: Result<Response, String>) {
        let found: Vec<String> = split_words(ctx.text.as_str());
        let arg: String = join_from(&found, 1, " ");

        if arg.as_str().is_empty() {
            return Err("No argument provided".to_owned());
        }
        let msg: String = glue(arg.as_str(), " has been rewritten in rust");

        Ok(Response::answer(ctx, msg, true))
    }

    fn help(&self) -> (usage: String) {
        "usage: !rewrite <arguments>".to_owned()
    }
}

} // verus!
