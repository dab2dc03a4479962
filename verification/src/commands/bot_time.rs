//! Shows how long the bot has been running
//!
//! usage: ```!bot-time```

use crate::commands::default_limit;
use crate::commands::default_rate_limit;
use crate::commands::ChatCommand;
use crate::message::one_answer;
use crate::message::ChatMessage;
use crate::message::MessageView;
use crate::message::Response;
use crate::message::ResponseView;
use crate::spam::RateLimit;
use crate::text::decimal;
use crate::text::glue3;
use crate::text::texts;
use crate::text::to_decimal;
use crate::time::Clock;
use crate::time::NANOS_PER_SEC;
use vstd::prelude::*;

verus! {

/// The `bottime` command: a clock that was started with the bot.
pub struct BotTime {
    start_time: Clock,
}

impl BotTime {
    /// How the bot says that it has been running for `seconds` seconds: in
    /// seconds below a minute, in whole minutes below an hour, else in whole
    /// hours.
    pub open spec fn uptime(seconds: nat) -> Seq<char> {
        if seconds / 60 == 0 {
            "Bot has been running for "@ + decimal(seconds) + " seconds."@
        } else if seconds / 60 / 60 == 0 {
            "Bot has been running for "@ + decimal(seconds / 60) + " minutes."@
        } else {
            "Bot has been running for "@ + decimal(seconds / 60 / 60) + " hours."@
        }
    }

    /// Says that the bot has been running for `seconds` seconds.
    pub fn uptime_message(seconds: u128) -> (msg: String)
        ensures
            msg@ == BotTime::uptime(seconds as nat),
    {
        let minutes: u128 = seconds / 60;
        let hours: u128 = minutes / 60;
        if minutes == 0 {
            glue3("Bot has been running for ", to_decimal(seconds).as_str(), " seconds.")
        } else if hours == 0 {
            glue3("Bot has been running for ", to_decimal(minutes).as_str(), " minutes.")
        } else {
            glue3("Bot has been running for ", to_decimal(hours).as_str(), " hours.")
        }
    }
}

impl ChatCommand for BotTime {
    open spec fn aliases() -> Seq<Seq<char>> {
        seq!["bottime"@, "bot_time"@, "bot-time"@]
    }

    open spec fn usage(&self) -> Seq<char> {
        "usage: !bottime"@
    }

    open spec fn limit(&self) -> RateLimit {
        default_limit()
    }

    /// The answer tells the time that the clock shows, whatever that is.
    open spec fn handles(
        &self,
        ctx: MessageView,
        after: Self,
        outcome: Result<ResponseView, Seq<char>>,
    ) -> bool {
        exists|seconds: nat|
            outcome == Ok::<ResponseView, Seq<char>>(
                one_answer(ctx, #[trigger] BotTime::uptime(seconds), true),
            )
    }

    fn new() -> Self {
        Self { start_time: Clock::start() }
    }

    fn names() -> (names: Vec<String>) {
        let mut names: Vec<String> = Vec::new();
        names.push("bottime".to_owned());
        names.push("bot_time".to_owned());
        names.push("bot-time".to_owned());
        assert(texts(names@) =~= Self::aliases());
        names
    }

    fn rate_limit(&self) -> (limit: RateLimit) {
        default_rate_limit()
    }

    fn handle(&mut self, ctx: &ChatMessage) -> (outcome: Result<Response, String>) {
        let seconds: u128 = self.start_time.now() / NANOS_PER_SEC;
        let msg: String = BotTime::uptime_message(seconds);
        Ok(Response::answer(ctx, msg, true))
    }

    fn help(&self) -> (usage: String) {
        "usage: !bottime".to_owned()
    }
}

} // verus!
