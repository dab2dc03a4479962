//! js command
//!
//! usage: ```!js```

use crate::commands::default_limit;
use crate::commands::default_rate_limit;
use crate::commands::one_name;
use crate::commands::ChatCommand;
use crate::message::one_answer;
use crate::message::ChatMessage;
use crate::message::MessageView;
use crate::message::Response;
use crate::message::ResponseView;
use crate::random::pick;
use crate::spam::RateLimit;
use crate::text::glue3;
use crate::text::texts;
use vstd::prelude::*;

verus! {

/// The `js` command. It keeps no state.
pub struct MostlyJs {}

impl MostlyJs {
    /// The things that do not exist.
    pub open spec fn sayings() -> Seq<Seq<char>> {
        seq!["Undefined"@, "[object Object]"@, "x === y"@]
    }

    /// The things that do not exist.
    pub fn msgs() -> (msgs: Vec<String>)
        ensures
            texts(msgs@) == MostlyJs::sayings(),
    {
        let mut msgs: Vec<String> = Vec::new();
        msgs.push("Undefined".to_owned());
        msgs.push("[object Object]".to_owned());
        msgs.push("x === y".to_owned());
        assert(texts(msgs@) =~= MostlyJs::sayings());
        msgs
    }

    /// What the command answers when chance picks `saying`.
    pub open spec fn verdict(saying: Seq<char>) -> Seq<char> {
        "\""@ + saying + "\" does not exist"@
    }

    /// Answers `ctx` with the saying `js`.
    pub fn answer(ctx: &ChatMessage, js: &str) -> (response: Response)
        ensures
            response@ == one_answer(ctx@, MostlyJs::verdict(js@), true),
    {
        let msg: String = glue3("\"", js, "\" does not exist");
        Response::answer(ctx, msg, true)
    }
}

impl ChatCommand for MostlyJs {
    open spec fn aliases() -> Seq<Seq<char>> {
        seq!["js"@]
    }

    open spec fn usage(&self) -> Seq<char> {
        "usage: !js"@
    }

    open spec fn limit(&self) -> RateLimit {
        default_limit()
    }

    /// The answer holds one of the sayings, whichever chance picked.
    open spec fn handles(
        &self,
        ctx: MessageView,
        after: Self,
        outcome: Result<ResponseView, Seq<char>>,
    ) -> bool {
        exists|i: int|
            0 <= i < MostlyJs::sayings().len() && outcome == Ok::<ResponseView, Seq<char>>(
                one_answer(ctx, MostlyJs::verdict(#[trigger] MostlyJs::sayings()[i]), true),
            )
    }

    fn new() -> Self {
        Self {  }
    }

    fn names() -> (names: Vec<String>) {
        one_name("js")
    }

    fn rate_limit(&self) -> (limit: RateLimit) {
        default_rate_limit()
    }

    fn handle(&mut self, ctx: &ChatMessage) -> (outcome: Result<Response, String>) {
        let msgs: Vec<String> = MostlyJs::msgs();
        let js: Option<&String> = pick(&msgs);
        match js {
            Some(chosen) => {
                proof {
                    let i = choose|i: int| 0 <= i < msgs@.len() && msgs@[i] == *chosen;
                    assert(texts(msgs@)[i] == chosen@);
                }
                Ok(MostlyJs::answer(ctx, chosen.as_str()))
            },
            None => {
                assert(texts(msgs@).len() == 0);
                vstd::pervasive::unreached()
            },
        }
    }

    fn help(&self) -> (usage: String) {
        "usage: !js".to_owned()
    }
}

} // verus!
