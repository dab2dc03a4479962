//! returns link to maxi's vod channel
//!
//! usage: ```!vods```

use crate::commands::ChatCommand;
use crate::commands::default_limit;
use crate::commands::default_rate_limit;
use crate::commands::two_names;
use crate::message::ChatMessage;
use crate::message::MessageView;
use crate::message::Response;
use crate::message::ResponseView;
use crate::message::one_answer;
use crate::spam::RateLimit;
use vstd::prelude::*;

verus! {

/// The `vods` command. It keeps no state.
pub struct MostlyVods {}

impl ChatCommand for MostlyVods {
    open spec fn aliases() -> Seq<Seq<char>> {
        seq!["vods"@, "vod"@]
    }

    open spec fn usage(&self) -> Seq<char> {
        "usage: !vods"@
    }

    open spec fn limit(&self) -> RateLimit {
        default_limit()
    }

    open spec fn handles(
        &self,
        ctx: MessageView,
        after: Self,
        outcome: Result<ResponseView, Seq<char>>,
    ) -> bool {
        outcome == Ok::<ResponseView, Seq<char>>(
            one_answer(ctx, "check out maxi's vods on youtube!: https://www.youtube.com/@mostlyvods"@, false),
        )
    }

    fn new() -> Self {
        Self {  }
    }

    fn names() -> (names: Vec<String>) {
        two_names("vods", "vod")
    }

    fn rate_limit(&self) -> (limit: RateLimit) {
        default_rate_limit()
    }

    fn handle(&mut self, ctx: &ChatMessage) -> (outcome: Result<Response, String>) {
        Ok(
            Response::answer(ctx, "check out maxi's vods on youtube!: https://www.youtube.com/@mostlyvods".to_owned(), false),
        )
    }

    fn help(&self) -> (usage: String) {
        "usage: !vods".to_owned()
    }
}

} // verus!
