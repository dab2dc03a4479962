//! progress command that shows progress
//!
//! usage: ```!progress```

use crate::commands::default_limit;
use crate::commands::default_rate_limit;
use crate::commands::one_name;
use crate::commands::ChatCommand;
use crate::message::one_answer;
use crate::message::ChatMessage;
use crate::message::MessageView;
use crate::message::Response;
use crate::message::ResponseView;
use crate::random::random_below;
use crate::spam::RateLimit;
use crate::text::decimal;
use crate::text::decimal_padded;
use crate::text::to_decimal;
use crate::text::to_decimal_padded;
use vstd::prelude::*;
use vstd::string::StringExecFns;

verus! {

/// A hundred percent, counted in millionths of a percent.
pub const FULL_PROGRESS: u32 = 100_000_000;

/// The `progress` command. It keeps no state.
pub struct Progress {}

impl Progress {
    /// How the command reports `millionths` millionths of a percent: as a
    /// percentage with six decimals.
    pub open spec fn report(millionths: nat) -> Seq<char> {
        "Progress: "@ + decimal(millionths / 1_000_000) + "."@ + decimal_padded(
            millionths % 1_000_000,
            6,
        ) + "% done!"@
    }

    /// Reports `millionths` millionths of a percent.
    pub fn progress_message(millionths: u32) -> (msg: String)
        ensures
            msg@ == Progress::report(millionths as nat),
    {
        let whole: String = to_decimal((millionths / 1_000_000) as u128);
        let part: String = to_decimal_padded((millionths % 1_000_000) as u128, 6);
        let mut msg: String = String::from_str("Progress: ");
        msg.append(whole.as_str());
        msg.append(".");
        msg.append(part.as_str());
        msg.append("% done!");
        msg
    }
}

impl ChatCommand for Progress {
    open spec fn aliases() -> Seq<Seq<char>> {
        seq!["progress"@]
    }

    open spec fn usage(&self) -> Seq<char> {
        "usage: !progress"@
    }

    open spec fn limit(&self) -> RateLimit {
        default_limit()
    }

    /// The answer reports some progress below a hundred percent, whichever
    /// chance picked.
    open spec fn handles(
        &self,
        ctx: MessageView,
        after: Self,
        outcome: Result<ResponseView, Seq<char>>,
    ) -> bool {
        exists|millionths: nat|
            millionths < FULL_PROGRESS && outcome == Ok::<ResponseView, Seq<char>>(
                one_answer(ctx, #[trigger] Progress::report(millionths), true),
            )
    }

    fn new() -> Self {
        Progress {  }
    }

    fn names() -> (names: Vec<String>) {
        one_name("progress")
    }

    fn rate_limit(&self) -> (limit: RateLimit) {
        default_rate_limit()
    }

    fn handle(&mut self, ctx: &ChatMessage) -> (outcome: Result<Response, String>) {
        let progress: u32 = random_below(FULL_PROGRESS);
        let msg: String = Progress::progress_message(progress);
        Ok(Response::answer(ctx, msg, true))
    }

    fn help(&self) -> (usage: String) {
        "usage: !progress".to_owned()
    }
}

} // verus!
