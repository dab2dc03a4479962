//! be lazy and have the computer count for you!
//!
//! usage: ```!count```

use crate::commands::default_limit;
use crate::commands::default_rate_limit;
use crate::commands::one_name;
use crate::commands::ChatCommand;
use crate::message::one_announcement;
use crate::message::ChatMessage;
use crate::message::MessageView;
use crate::message::Response;
use crate::message::ResponseView;
use crate::spam::RateLimit;
use crate::text::decimal;
use crate::text::glue;
use crate::text::to_decimal;
use vstd::prelude::*;

verus! {

/// The `count` command: the number of times its answer has reached the chat.
pub struct Count(usize);

impl Count {
    /// The number the command will show next.
    pub closed spec fn count(&self) -> usize {
        self.0
    }

    /// The number after one more answer has reached the chat. The counter
    /// stays where it is once it cannot count any further.
    pub open spec fn counted_up(n: usize) -> usize {
        if n < usize::MAX {
            (n + 1) as usize
        } else {
            n
        }
    }

    /// The number the command will show next.
    pub fn current(&self) -> (n: usize)
        ensures
            n == self.count(),
    {
        self.0
    }

    /// Counts up, once the answer has reached the chat.
    pub fn delivered(&mut self)
        ensures
            final(self).count() == Count::counted_up(old(self).count()),
    {
        if self.0 < usize::MAX {
            self.0 = self.0 + 1;
        }
    }
}

impl ChatCommand for Count {
    open spec fn aliases() -> Seq<Seq<char>> {
        seq!["count"@]
    }

    open spec fn usage(&self) -> Seq<char> {
        "usage: !count"@
    }

    open spec fn limit(&self) -> RateLimit {
        default_limit()
    }

    open spec fn handles(
        &self,
        ctx: MessageView,
        after: Self,
        outcome: Result<ResponseView, Seq<char>>,
    ) -> bool {
        &&& after.count() == self.count()
        &&& outcome == Ok::<ResponseView, Seq<char>>(
            one_announcement("current count: "@ + decimal(self.count() as nat), false),
        )
    }

    fn new() -> (counter: Self)
        ensures
            counter.count() == 0,
    {
        Self(0)
    }

    fn names() -> (names: Vec<String>) {
        one_name("count")
    }

    fn rate_limit(&self) -> (limit: RateLimit) {
        default_rate_limit()
    }

    fn handle(&mut self, ctx: &ChatMessage) -> (outcome: Result<Response, String>) {
        let shown: String = to_decimal(self.0 as u128);
        Ok(Response::announce(glue("current count: ", shown.as_str()), false))
    }

    fn help(&self) -> (usage: String) {
        "usage: !count".to_owned()
    }
}

} // verus!
