//! makes custom gnu/linux copy pasta
//!
//! usage: ```!mostlypasta <gnu> <linux>```

use crate::commands::default_limit;
use crate::commands::default_rate_limit;
use crate::commands::one_name;
use crate::commands::ChatCommand;
use crate::message::one_announcement;
use crate::message::ChatMessage;
use crate::message::MessageView;
use crate::message::Response;
use crate::message::ResponseView;
use crate::spam::RateLimit;
use crate::text::split_words;
use crate::text::words;
use vstd::prelude::*;
use vstd::string::StringExecFns;

verus! {

/// The `mostlypasta` command. It keeps no state.
pub struct MostlyPasta {}

impl MostlyPasta {
    /// The interjection, with `gnu` and `linux` in their places.
    pub open spec fn pasta(gnu: Seq<char>, linux: Seq<char>) -> Seq<char> {
        "\nI'd just like to interject for a moment. What you're refering to as "@ + linux
            + ", is in fact, "@ + gnu + "/"@ + linux
            + ", or as I've recently taken to calling it, "@ + gnu + " plus "@ + linux + ". "@
            + linux
            + " is not an operating system unto itself, but rather another free component of a fully functioning "@
            + gnu + " system made useful by the "@ + gnu
            + " corelibs, shell utilities and vital system components comprising a full OS as defined by POSIX."@
    }

    /// Writes the interjection, with `gnu` and `linux` in their places.
    pub fn write_pasta(gnu: &str, linux: &str) -> (text: String)
        ensures
            text@ == MostlyPasta::pasta(gnu@, linux@),
    {
        let mut text: String = String::from_str(
            "\nI'd just like to interject for a moment. What you're refering to as ",
        );
        text.append(linux);
        text.append(", is in fact, ");
        text.append(gnu);
        text.append("/");
        text.append(linux);
        text.append(", or as I've recently taken to calling it, ");
        text.append(gnu);
        text.append(" plus ");
        text.append(linux);
        text.append(". ");
        text.append(linux);
        text.append(
            " is not an operating system unto itself, but rather another free component of a fully functioning ",
        );
        text.append(gnu);
        text.append(" system made useful by the ");
        text.append(gnu);
        text.append(
            " corelibs, shell utilities and vital system components comprising a full OS as defined by POSIX.",
        );
        text
    }
}

impl ChatCommand for MostlyPasta {
    open spec fn aliases() -> Seq<Seq<char>> {
        seq!["mostlypasta"@]
    }

    open spec fn usage(&self) -> Seq<char> {
        "!mostlypasta <gnu> <linux>"@
    }

    open spec fn limit(&self) -> RateLimit {
        default_limit()
    }

    open spec fn handles(
        &self,
        ctx: MessageView,
        after: Self,
        outcome: Result<ResponseView, Seq<char>>,
    ) -> bool {
        let args = words(ctx.text);
        if args.len() < 3 {
            outcome == Err::<ResponseView, Seq<char>>("not enough arguments"@)
        } else if args.len() > 3 {
            outcome == Err::<ResponseView, Seq<char>>("too many arguments"@)
        } else {
            outcome == Ok::<ResponseView, Seq<char>>(
                one_announcement(MostlyPasta::pasta(args[1], args[2]), false),
            )
        }
    }

    fn new() -> Self {
        Self {  }
    }

    fn names() -> (names: Vec<String>) {
        one_name("mostlypasta")
    }

    fn rate_limit(&self) -> (limit: RateLimit) {
        default_rate_limit()
    }

    fn handle(&mut self, ctx: &ChatMessage) -> (outcome: Result<Response, String>) {
        let args: Vec<String> = split_words(ctx.text.as_str());
        if args.len() < 3 {
            return Err("not enough arguments".to_owned());
        }
        if args.len() > 3 {
            return Err("too many arguments".to_owned());
        }
        let pasta: String = MostlyPasta::write_pasta(args[1].as_str(), args[2].as_str());
        Ok(Response::announce(pasta, false))
    }

    fn help(&self) -> (usage: String) {
        "!mostlypasta <gnu> <linux>".to_owned()
    }
}

} // verus!
