//! special help command that gets info on all other commands
//!
//! usage: ```!help <command>```

use crate::command::usage_texts;
use crate::command::CommandMap;
use crate::commands::default_limit;
use crate::commands::default_rate_limit;
use crate::commands::one_name;
use crate::commands::ChatCommand;
use crate::message::answer_to;
use crate::message::one_answer;
use crate::message::reply_views;
use crate::message::ChatMessage;
use crate::message::MessageView;
use crate::message::Reply;
use crate::message::Response;
use crate::message::ResponseView;
use crate::spam::RateLimit;
use crate::text::glue;
use crate::text::split_words;
use crate::text::words;
use vstd::hash_map::StringHashMap;
use vstd::prelude::*;

verus! {

/// The `help` command: the usage lines of the commands it was shown.
pub struct MostlyHelp {
    cmds: StringHashMap<String>,
}

impl MostlyHelp {
    /// The usage lines that the command knows, by command name.
    pub closed spec fn known(&self) -> Map<Seq<char>, Seq<char>> {
        usage_texts(self.cmds@)
    }

    /// What the command answers to a call without a command name.
    pub open spec fn general_help(&self, ctx: MessageView) -> ResponseView {
        ResponseView {
            replies: seq![
                answer_to(ctx, "usage: "@ + self.usage()),
                answer_to(ctx, "[WARN] if you're looking for the list of commands try: !commands"@),
            ],
            must_arrive: false,
        }
    }

    /// The answer that says nothing.
    pub open spec fn silence() -> ResponseView {
        ResponseView { replies: Seq::empty(), must_arrive: false }
    }

    /// the help command is special in that it needs access to the command
    /// map to tell the usage of a specified command
    pub fn init(&mut self, cmds: &CommandMap)
        ensures
            final(self).known() == cmds@.usages(),
    {
        self.cmds = cmds.usages();
    }
}

impl ChatCommand for MostlyHelp {
    open spec fn aliases() -> Seq<Seq<char>> {
        seq!["help"@]
    }

    open spec fn usage(&self) -> Seq<char> {
        "!help <command name>"@
    }

    open spec fn limit(&self) -> RateLimit {
        default_limit()
    }

    /// Without a command name the command explains itself. With one it tells
    /// the usage of that command, or nothing if it knows none of that name.
    /// More than one name is a failure.
    open spec fn handles(
        &self,
        ctx: MessageView,
        after: Self,
        outcome: Result<ResponseView, Seq<char>>,
    ) -> bool {
        let args = words(ctx.text);
        &&& after.known() == self.known()
        &&& if args.len() < 2 {
            outcome == Ok::<ResponseView, Seq<char>>(self.general_help(ctx))
        } else if args.len() > 2 {
            outcome == Err::<ResponseView, Seq<char>>("too many arguments"@)
        } else if self.known().contains_key(args[1]) {
            outcome == Ok::<ResponseView, Seq<char>>(
                one_answer(ctx, "usage: "@ + self.known()[args[1]], false),
            )
        } else {
            outcome == Ok::<ResponseView, Seq<char>>(MostlyHelp::silence())
        }
    }

    fn new() -> (help: Self)
        ensures
            help.known() == Map::<Seq<char>, Seq<char>>::empty(),
    {
        let help = Self { cmds: StringHashMap::new() };
        assert(help.known() =~= Map::<Seq<char>, Seq<char>>::empty());
        help
    }

    fn names() -> (names: Vec<String>) {
        one_name("help")
    }

    fn rate_limit(&self) -> (limit: RateLimit) {
        default_rate_limit()
    }

    fn handle(&mut self, ctx: &ChatMessage) -> (outcome: Result<Response, String>) {
        let args: Vec<String> = split_words(ctx.text.as_str());

        if args.len() < 2 {
            let mut replies: Vec<Reply> = Vec::new();
            replies.push(Reply::to(ctx, glue("usage: ", self.help().as_str())));
            replies.push(
                Reply::to(
                    ctx,
                    "[WARN] if you're looking for the list of commands try: !commands".to_owned(),
                ),
            );
            assert(reply_views(replies@) =~= self.general_help(ctx@).replies);
            return Ok(Response { replies, must_arrive: false });
        }
        if args.len() > 2 {
            return Err("too many arguments".to_owned());
        }
        match self.cmds.get(args[1].as_str()) {
            Some(line) => Ok(Response::answer(ctx, glue("usage: ", line.as_str()), false)),
            None => {
                let replies: Vec<Reply> = Vec::new();
                assert(reply_views(replies@) =~= MostlyHelp::silence().replies);
                Ok(Response { replies, must_arrive: false })
            },
        }
    }

    fn help(&self) -> (usage: String) {
        "!help <command name>".to_owned()
    }
}

} // verus!
