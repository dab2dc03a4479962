//! returns maxi's kofi link
//!
//! usage: ```!kofi```

use crate::commands::ChatCommand;
use crate::commands::default_limit;
use crate::commands::default_rate_limit;
use crate::message::ChatMessage;
use crate::message::MessageView;
use crate::message::Response;
use crate::message::ResponseView;
use crate::message::one_answer;
use crate::spam::RateLimit;
use crate::text::texts;
use vstd::prelude::*;

verus! {

/// The `kofi` command. It keeps no state.
pub struct MostlyKofi {}

impl ChatCommand for MostlyKofi {
    open spec fn aliases() -> Seq<Seq<char>> {
        seq!["kofi"@, "ko-fi"@, "donate"@]
    }

    open spec fn usage(&self) -> Seq<char> {
        "usage: !kofi"@
    }

    open spec fn limit(&self) -> RateLimit {
        default_limit()
    }

    open spec fn handles(
        &self,
        ctx: MessageView,
        after: Self,
        outcome: Result<ResponseView, Seq<char>>,
    ) -> bool {
        outcome == Ok::<ResponseView, Seq<char>>(
            one_answer(ctx, "buy maxi a coffee: https://ko-fi.com/mostlymaxi"@, false),
        )
    }

    fn new() -> Self {
        Self {  }
    }

    fn names() -> (names: Vec<String>) {
        let mut names: Vec<String> = Vec::new();
        names.push("kofi".to_owned());
        names.push("ko-fi".to_owned());
        names.push("donate".to_owned());
        assert(texts(names@) =~= Self::aliases());
        names
    }

    fn rate_limit(&self) -> (limit: RateLimit) {
        default_rate_limit()
    }

    fn handle(&mut self, ctx: &ChatMessage) -> (outcome: Result<Response, String>) {
        Ok(
            Response::answer(ctx, "buy maxi a coffee: https://ko-fi.com/mostlymaxi".to_owned(), false),
        )
    }

    fn help(&self) -> (usage: String) {
        "usage: !kofi".to_owned()
    }
}

} // verus!
