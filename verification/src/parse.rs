//! Telling commands from ordinary chat.

use crate::command::Command;
use crate::text::char_is_alphanumeric;
use crate::text::chars_of;
use crate::text::cut;
use crate::text::pieces;
use crate::text::bounds_within;
use crate::text::texts;
use crate::text::word_bounds;
use crate::text::words;
use vstd::prelude::*;

verus! {

/// The character that every command begins with.
pub const PREFIX: char = '!';

/// What a chat message turned out to be.
#[derive(Debug, Clone, PartialEq, Eq)]
pub enum CommandParseResult {
    /// Ordinary chat.
    NotACommand,
    /// It begins like a command but names none.
    InvalidCommand,
    /// A command name and its arguments.
    ValidCommand(String, Vec<String>),
}

/// What a chat message turned out to be, as text.
pub enum ParsedCommand {
    /// Ordinary chat.
    NotACommand,
    /// It begins like a command but names none.
    InvalidCommand,
    /// A command name and its arguments.
    ValidCommand(Seq<char>, Seq<Seq<char>>),
}

impl View for CommandParseResult {
    type V = ParsedCommand;

    open spec fn view(&self) -> ParsedCommand {
        match self {
            CommandParseResult::NotACommand => ParsedCommand::NotACommand,
            CommandParseResult::InvalidCommand => ParsedCommand::InvalidCommand,
            CommandParseResult::ValidCommand(name, args) => ParsedCommand::ValidCommand(
                name@,
                texts(args@),
            ),
        }
    }
}

/// `word` without the prefix characters it begins with, however many.
pub open spec fn without_prefix(word: Seq<char>) -> Seq<char>
    decreases word.len(),
{
    if word.len() > 0 && word[0] == PREFIX {
        without_prefix(word.drop_first())
    } else {
        word
    }
}

/// Whether `c` may stand in a command name: a letter, a number or `_`.
pub open spec fn name_char(c: char) -> bool {
    char_is_alphanumeric(c) || c == '_'
}

/// Whether `name` can name a command: it is not empty and holds nothing but
/// letters, numbers and `_`.
pub open spec fn well_named(name: Seq<char>) -> bool {
    &&& name.len() > 0
    &&& forall|i: int| 0 <= i < name.len() ==> name_char(#[trigger] name[i])
}

/// What the message `message` is.
///
/// A message whose first word does not begin with the prefix is ordinary
/// chat; so is one without any word. Otherwise the first word, less its
/// prefix, is the command name, which has to be well formed, and the words
/// after it are the arguments. Upper and lower case are told apart.
pub open spec fn parsed(message: Seq<char>) -> ParsedCommand {
    let found = words(message);
    if found.len() == 0 || found[0].len() == 0 || found[0][0] != PREFIX {
        ParsedCommand::NotACommand
    } else if well_named(without_prefix(found[0])) {
        ParsedCommand::ValidCommand(without_prefix(found[0]), found.skip(1))
    } else {
        ParsedCommand::InvalidCommand
    }
}

/// Dropping one prefix character from the front changes nothing of what is
/// left once all are dropped.
proof fn lemma_without_prefix_step(s: Seq<char>, from: int, to: int)
    requires
        0 <= from < to <= s.len(),
        s[from] == PREFIX,
    ensures
        without_prefix(s.subrange(from, to)) == without_prefix(s.subrange(from + 1, to)),
{
    assert(s.subrange(from, to).drop_first() =~= s.subrange(from + 1, to));
}

impl Command {
    /// Parses the message to check if it is a command.
    pub fn parse(message: &str) -> (result: CommandParseResult)
        ensures
            result@ == parsed(message@),
    {
        let chars: Vec<char> = chars_of(message);
        let bounds: Vec<(usize, usize)> = word_bounds(&chars);
        if bounds.len() == 0 {
            return CommandParseResult::NotACommand;
        }
        let (start, end) = bounds[0];
        let ghost first = chars@.subrange(start as int, end as int);
        assert(pieces(chars@, bounds@)[0] == first);
        if chars[start] != PREFIX {
            return CommandParseResult::NotACommand;
        }
        // strip the prefix
        let mut from: usize = start;
        while from < end && chars[from] == PREFIX
            invariant
                start <= from <= end <= chars@.len(),
                without_prefix(first) == without_prefix(chars@.subrange(from as int, end as int)),
            decreases end - from,
        {
            proof {
                lemma_without_prefix_step(chars@, from as int, end as int);
            }
            from = from + 1;
        }
        let ghost name = chars@.subrange(from as int, end as int);
        assert(without_prefix(first) == name);
        if from == end {
            return CommandParseResult::InvalidCommand;
        }
        assert(!well_named(name) ==> parsed(message@) == ParsedCommand::InvalidCommand);
        // check for invalid characters
        let mut at: usize = from;
        while at < end
            invariant
                from <= at <= end <= chars@.len(),
                name == chars@.subrange(from as int, end as int),
                !well_named(name) ==> parsed(message@) == ParsedCommand::InvalidCommand,
                forall|i: int| 0 <= i < at - from ==> name_char(#[trigger] name[i]),
            decreases end - at,
        {
            let c: char = chars[at];
            if !(c.is_alphanumeric() || c == '_') {
                assert(!name_char(name[at - from]));
                return CommandParseResult::InvalidCommand;
            }
            at = at + 1;
        }
        // remaining words as arguments
        let mut args: Vec<String> = Vec::new();
        let mut k: usize = 1;
        while k < bounds.len()
            invariant
                chars@ == message@,
                1 <= k <= bounds.len(),
                bounds_within(chars@, bounds@),
                args@.len() == k - 1,
                texts(args@) == pieces(chars@, bounds@).subrange(1, k as int),
            decreases bounds.len() - k,
        {
            let (word_from, word_to) = bounds[k];
            let word: String = cut(message, word_from, word_to);
            proof {
                let all = pieces(chars@, bounds@);
                let longer = texts(args@.push(word));
                assert forall|i: int| 0 <= i < k implies longer[i] == all.subrange(1, k + 1)[i] by {
                    if i < k - 1 {
                        assert(longer[i] == texts(args@)[i]);
                        assert(all.subrange(1, k as int)[i] == all[i + 1]);
                    }
                }
                assert(longer =~= all.subrange(1, k + 1));
            }
            args.push(word);
            k = k + 1;
        }
        assert(pieces(chars@, bounds@).subrange(1, k as int) =~= pieces(chars@, bounds@).skip(1));
        CommandParseResult::ValidCommand(cut(message, from, end), args)
    }
}

} // verus!
