//! command that lets mostlymaxi know that you are lurking and will not be paying attention to the
//! stream during the term of your lurk
//!
//! usage: ```!lurk``` or ```!lurkwith <status>``` or ```!unlurk``` or ```!lurker [@username]``` or
//! ```!lurkers```

use crate::commands::default_limit;
use crate::commands::default_rate_limit;
use crate::commands::ChatCommand;
use crate::message::one_announcement;
use crate::message::one_answer;
use crate::message::ChatMessage;
use crate::message::MessageView;
use crate::message::Response;
use crate::message::ResponseView;
use crate::spam::RateLimit;
use crate::text::char_replaced;
use crate::text::chars_of;
use crate::text::cut;
use crate::text::glue;
use crate::text::replace_char;
use crate::text::same_text;
use crate::text::split_words;
use crate::text::texts;
use crate::text::words;
use vstd::prelude::*;
use vstd::string::StringExecFns;

verus! {

/// A user who lurks, with the status they gave, if any.
#[derive(Debug, Clone, PartialEq, Eq)]
pub struct Lurker {
    pub name: String,
    pub status: Option<String>,
}

impl View for Lurker {
    type V = (Seq<char>, Option<Seq<char>>);

    open spec fn view(&self) -> (Seq<char>, Option<Seq<char>>) {
        (
            self.name@,
            match self.status {
                Some(status) => Some(status@),
                None => None,
            },
        )
    }
}

/// Each of `lurkers` as text.
pub open spec fn roster(lurkers: Seq<Lurker>) -> Seq<(Seq<char>, Option<Seq<char>>)> {
    Seq::new(lurkers.len(), |i: int| lurkers[i]@)
}

/// Whether no name stands twice in `list`.
pub open spec fn distinct(list: Seq<(Seq<char>, Option<Seq<char>>)>) -> bool {
    forall|i: int, j: int|
        0 <= i < list.len() && 0 <= j < list.len() && i != j ==> (#[trigger] list[i]).0 != (
        #[trigger] list[j]).0
}

/// The place of `name` among the first `k` of `list`, if it stands there.
pub open spec fn seat(list: Seq<(Seq<char>, Option<Seq<char>>)>, name: Seq<char>, k: int) -> Option<
    int,
>
    decreases k,
{
    if k <= 0 {
        None
    } else if seat(list, name, k - 1) is Some {
        seat(list, name, k - 1)
    } else if list[k - 1].0 == name {
        Some(k - 1)
    } else {
        None
    }
}

/// The place of `name` in `list`, if it stands there.
pub open spec fn seat_of(list: Seq<(Seq<char>, Option<Seq<char>>)>, name: Seq<char>) -> Option<
    int,
> {
    seat(list, name, list.len() as int)
}

/// `list` with `name` lurking with `status`: in the place it had, or at the
/// end if it was not there.
pub open spec fn with_lurker(
    list: Seq<(Seq<char>, Option<Seq<char>>)>,
    name: Seq<char>,
    status: Option<Seq<char>>,
) -> Seq<(Seq<char>, Option<Seq<char>>)> {
    match seat_of(list, name) {
        Some(i) => list.update(i, (name, status)),
        None => list.push((name, status)),
    }
}

/// `list` without `name`.
pub open spec fn without_lurker(list: Seq<(Seq<char>, Option<Seq<char>>)>, name: Seq<char>) -> Seq<
    (Seq<char>, Option<Seq<char>>),
> {
    match seat_of(list, name) {
        Some(i) => list.remove(i),
        None => list,
    }
}

/// A name has a place exactly if it stands in the list, and the place it has
/// is the first where it stands.
pub proof fn lemma_seat(list: Seq<(Seq<char>, Option<Seq<char>>)>, name: Seq<char>, k: int)
    requires
        0 <= k <= list.len(),
    ensures
        match seat(list, name, k) {
            Some(i) => 0 <= i < k && list[i].0 == name && forall|j: int|
                0 <= j < i ==> (#[trigger] list[j]).0 != name,
            None => forall|j: int| 0 <= j < k ==> (#[trigger] list[j]).0 != name,
        },
    decreases k,
{
    if k > 0 {
        lemma_seat(list, name, k - 1);
    }
}

/// The words from number `from` on, each with a blank before it.
pub open spec fn spaced(args: Seq<Seq<char>>, from: int) -> Seq<char>
    decreases args.len() - from,
{
    if from >= args.len() {
        Seq::empty()
    } else {
        " "@ + args[from] + spaced(args, from + 1)
    }
}

/// Writes the words from number `from` on, each with a blank before it.
pub fn write_spaced(args: &Vec<String>, from: usize) -> (text: String)
    ensures
        text@ == spaced(texts(args@), from as int),
    decreases args.len() - from,
{
    if from >= args.len() {
        String::new()
    } else {
        let rest: String = write_spaced(args, from + 1);
        let mut text: String = String::from_str(" ");
        text.append(args[from].as_str());
        text.append(rest.as_str());
        text
    }
}

/// The names of `list`, each with an `@` before it, with `, ` between each
/// two of them from number `from` on.
pub open spec fn mentions(list: Seq<(Seq<char>, Option<Seq<char>>)>, from: int) -> Seq<char>
    decreases list.len() - from,
{
    if from >= list.len() {
        Seq::empty()
    } else if from == list.len() - 1 {
        "@"@ + list[from].0
    } else {
        "@"@ + list[from].0 + ", "@ + mentions(list, from + 1)
    }
}

/// What `!lurkers` tells of `list`.
pub open spec fn lurkers_text(list: Seq<(Seq<char>, Option<Seq<char>>)>) -> Seq<char> {
    if list.len() == 0 {
        "Lurkers: "@ + "<none>"@
    } else {
        "Lurkers: "@ + mentions(list, 0)
    }
}

/// What `!lurker` tells of `username` who lurks with `status`.
pub open spec fn lurked_text(username: Seq<char>, status: Option<Seq<char>>) -> Seq<char> {
    char_replaced(
        char_replaced("@ is lurking %"@, '@', "@"@ + username),
        '%',
        match status {
            Some(given) => given,
            None => "with no status"@,
        },
    )
}

/// What `!unlurk` tells someone who lurked with `status`.
pub open spec fn unlurk_text(status: Option<Seq<char>>) -> Seq<char> {
    char_replaced(
        "welcome back! hope you were productive %"@,
        '%',
        match status {
            Some(given) => given,
            None => "during your lurk!"@,
        },
    )
}

/// What `!lurk` tells `name` who lurks already.
pub open spec fn already_text(name: Seq<char>) -> Seq<char> {
    char_replaced(
        "you are already lurking silly! to unlurk do `!unlurk` or view your lurk-status with `!lurker @`"@,
        '@',
        name,
    )
}

/// The user that `!lurker` is asked about: the words behind the command, each
/// with a blank before it, or the sender where there are none; less an `@` in
/// front.
pub open spec fn asked_about(args: Seq<Seq<char>>, sender: Seq<char>) -> Seq<char> {
    let given = if spaced(args, 1).len() == 0 {
        sender
    } else {
        spaced(args, 1)
    };
    if given.len() > 0 && given[0] == '@' {
        given.drop_first()
    } else {
        given
    }
}

/// What the first word must be.
pub open spec fn unknown_call() -> Seq<char> {
    "invoked lurk command without first word being any of the commands [\"lurk\", \"lurkwith\", \"unlurk\", \"lurker\", \"lurkers\"]"@
}

/// A struct holding the users that are currently lurking
pub struct Lurk {
    /// The users that are currently lurking with their lurk-status, each once,
    /// in the order in which they began
    users_lurking: Vec<Lurker>,
}

impl View for Lurk {
    type V = Seq<(Seq<char>, Option<Seq<char>>)>;

    closed spec fn view(&self) -> Seq<(Seq<char>, Option<Seq<char>>)> {
        roster(self.users_lurking@)
    }
}

impl Lurk {
    #[verifier::type_invariant]
    spec fn each_once(self) -> bool {
        distinct(roster(self.users_lurking@))
    }

    /// The place of `name` among the lurkers, if it lurks.
    pub fn find(&self, name: &str) -> (place: Option<usize>)
        ensures
            match place {
                Some(i) => seat_of(self@, name@) == Some(i as int) && i < self@.len(),
                None => seat_of(self@, name@) is None,
            },
    {
        let mut i: usize = 0;
        while i < self.users_lurking.len()
            invariant
                i <= self.users_lurking.len(),
                seat(self@, name@, i as int) is None,
            decreases self.users_lurking.len() - i,
        {
            if same_text(self.users_lurking[i].name.as_str(), name) {
                proof {
                    lemma_seat_stays(self@, name@, i + 1, self@.len() as int);
                }
                return Some(i);
            }
            i = i + 1;
        }
        None
    }

    /// The lurkers, in the order in which they began.
    pub fn lurkers(&self) -> (list: &Vec<Lurker>)
        ensures
            roster(list@) == self@,
            distinct(self@),
    {
        proof {
            use_type_invariant(self);
        }
        &self.users_lurking
    }

    /// Lets `name` lurk with `status`. Returns the status `name` lurked with
    /// before, if it did.
    pub fn insert(&mut self, name: &str, status: Option<String>) -> (before: Option<Option<String>>)
        ensures
            final(self)@ == with_lurker(
                old(self)@,
                name@,
                match status {
                    Some(given) => Some(given@),
                    None => None,
                },
            ),
            match before {
                Some(had) => seat_of(old(self)@, name@) matches Some(i) && old(self)@[i].1 == (
                match had {
                    Some(given) => Some(given@),
                    None => None,
                }),
                None => seat_of(old(self)@, name@) is None,
            },
    {
        proof {
            use_type_invariant(&*self);
            lemma_seat(self@, name@, self@.len() as int);
        }
        let ghost was = self@;
        let mut taken: Vec<Lurker> = Vec::new();
        std::mem::swap(&mut taken, &mut self.users_lurking);
        let entered = Lurker { name: name.to_owned(), status };
        let before: Option<Option<String>> = match Lurk::find_in(&taken, name) {
            Some(i) => {
                let gone: Lurker = taken.remove(i);
                taken.insert(i, entered);
                assert(roster(taken@) =~= was.update(i as int, entered@));
                Some(gone.status)
            },
            None => {
                taken.push(entered);
                assert(roster(taken@) =~= was.push(entered@));
                None
            },
        };
        assert(distinct(roster(taken@)));
        self.users_lurking = taken;
        before
    }

    /// Lets `name` lurk no more. Returns the status `name` lurked with, if it
    /// did.
    pub fn remove(&mut self, name: &str) -> (before: Option<Option<String>>)
        ensures
            final(self)@ == without_lurker(old(self)@, name@),
            match before {
                Some(had) => seat_of(old(self)@, name@) matches Some(i) && old(self)@[i].1 == (
                match had {
                    Some(given) => Some(given@),
                    None => None,
                }),
                None => seat_of(old(self)@, name@) is None,
            },
    {
        proof {
            use_type_invariant(&*self);
            lemma_seat(self@, name@, self@.len() as int);
        }
        let ghost was = self@;
        let mut taken: Vec<Lurker> = Vec::new();
        std::mem::swap(&mut taken, &mut self.users_lurking);
        let before: Option<Option<String>> = match Lurk::find_in(&taken, name) {
            Some(i) => {
                let gone: Lurker = taken.remove(i);
                assert(roster(taken@) =~= was.remove(i as int));
                Some(gone.status)
            },
            None => None,
        };
        assert(distinct(roster(taken@)));
        self.users_lurking = taken;
        before
    }

    /// The place of `name` in `list`, if it stands there.
    fn find_in(list: &Vec<Lurker>, name: &str) -> (place: Option<usize>)
        ensures
            match place {
                Some(i) => seat_of(roster(list@), name@) == Some(i as int) && i < list@.len(),
                None => seat_of(roster(list@), name@) is None,
            },
    {
        let mut i: usize = 0;
        while i < list.len()
            invariant
                i <= list.len(),
                seat(roster(list@), name@, i as int) is None,
            decreases list.len() - i,
        {
            if same_text(list[i].name.as_str(), name) {
                proof {
                    lemma_seat_stays(roster(list@), name@, i + 1, list@.len() as int);
                }
                return Some(i);
            }
            i = i + 1;
        }
        None
    }
}

/// Writes the names of `list` from number `from` on, each with an `@` before
/// it, with `, ` between each two of them.
pub fn write_mentions(list: &Vec<Lurker>, from: usize) -> (text: String)
    ensures
        text@ == mentions(roster(list@), from as int),
    decreases list.len() - from,
{
    if from >= list.len() {
        String::new()
    } else if from == list.len() - 1 {
        glue("@", list[from].name.as_str())
    } else {
        let rest: String = write_mentions(list, from + 1);
        let mut text: String = String::from_str("@");
        text.append(list[from].name.as_str());
        text.append(", ");
        text.append(rest.as_str());
        text
    }
}

impl ChatCommand for Lurk {
    open spec fn aliases() -> Seq<Seq<char>> {
        seq!["lurk"@, "lurkwith"@, "unlurk"@, "lurker"@, "lurkers"@]
    }

    open spec fn usage(&self) -> Seq<char> {
        "usage: `!lurk` or `!lurkwith <status>` or `!unlurk` or `!lurker [@username]` or `!lurkers`"@
    }

    open spec fn limit(&self) -> RateLimit {
        default_limit()
    }

    /// The first word of the message says what is asked. `!lurk` and
    /// `!lurkwith` let the sender lurk, the second with the words behind it as
    /// the status; `!unlurk` lets the sender lurk no more; `!lurker` tells of
    /// one lurker and `!lurkers` of all. Every answer has to arrive.
    open spec fn handles(
        &self,
        ctx: MessageView,
        after: Self,
        outcome: Result<ResponseView, Seq<char>>,
    ) -> bool {
        let args = words(ctx.text);
        let name = ctx.chatter_name;
        if args.len() == 0 {
            &&& after@ == self@
            &&& outcome == Err::<ResponseView, Seq<char>>(
                "invoked lurk command without any content in the message text"@,
            )
        } else if args[0] == "!lurk"@ {
            &&& after@ == with_lurker(self@, name, None)
            &&& outcome == Ok::<ResponseView, Seq<char>>(
                one_answer(
                    ctx,
                    if seat_of(self@, name) is Some {
                        already_text(name)
                    } else {
                        "have a nice lurk!"@
                    },
                    true,
                ),
            )
        } else if args[0] == "!lurkwith"@ {
            &&& after@ == with_lurker(self@, name, Some(spaced(args, 1)))
            &&& outcome == Ok::<ResponseView, Seq<char>>(
                one_answer(
                    ctx,
                    if seat_of(self@, name) is Some {
                        "lurk status successfully updated!"@
                    } else {
                        "have a nice lurk!"@
                    },
                    true,
                ),
            )
        } else if args[0] == "!unlurk"@ {
            &&& after@ == without_lurker(self@, name)
            &&& outcome == Ok::<ResponseView, Seq<char>>(
                one_answer(
                    ctx,
                    match seat_of(self@, name) {
                        Some(i) => unlurk_text(self@[i].1),
                        None => "you weren't lurking but welcome back anyway!"@,
                    },
                    true,
                ),
            )
        } else if args[0] == "!lurker"@ {
            &&& after@ == self@
            &&& if spaced(args, 1).len() == 0 && name.len() == 0 {
                outcome == Err::<ResponseView, Seq<char>>("chatter.name received empty"@)
            } else {
                outcome == Ok::<ResponseView, Seq<char>>(
                    one_announcement(
                        match seat_of(self@, asked_about(args, name)) {
                            Some(i) => lurked_text(asked_about(args, name), self@[i].1),
                            None => "you're not lurking"@,
                        },
                        true,
                    ),
                )
            }
        } else if args[0] == "!lurkers"@ {
            &&& after@ == self@
            &&& outcome == Ok::<ResponseView, Seq<char>>(
                one_announcement(lurkers_text(self@), true),
            )
        } else {
            &&& after@ == self@
            &&& outcome == Err::<ResponseView, Seq<char>>(unknown_call())
        }
    }

    fn new() -> (lurk: Self)
        ensures
            lurk@.len() == 0,
    {
        Lurk { users_lurking: Vec::new() }
    }

    fn names() -> (names: Vec<String>) {
        let mut names: Vec<String> = Vec::new();
        names.push("lurk".to_owned());
        names.push("lurkwith".to_owned());
        names.push("unlurk".to_owned());
        names.push("lurker".to_owned());
        names.push("lurkers".to_owned());
        assert(texts(names@) =~= Self::aliases());
        names
    }

    fn rate_limit(&self) -> (limit: RateLimit) {
        default_rate_limit()
    }

    fn handle(&mut self, ctx: &ChatMessage) -> (outcome: Result<Response, String>) {
        // split the words in the messages
        let args: Vec<String> = split_words(ctx.text.as_str());
        // get the first word of the message which should be the !lurk or !unlurk
        if args.len() == 0 {
            return Err("invoked lurk command without any content in the message text".to_owned());
        }
        let command_invoked: &str = args[0].as_str();
        let name: &str = ctx.chatter.name.as_str();

        if same_text(command_invoked, "!lurk") {
            match self.insert(name, None) {
                // called !lurk while not previously lurking and will now start lurking
                None => Ok(Response::answer(ctx, "have a nice lurk!".to_owned(), true)),
                // called !lurk while already lurking with or without a status, will continue
                // lurking
                Some(_) => Ok(
                    Response::answer(
                        ctx,
                        replace_char(
                            "you are already lurking silly! to unlurk do `!unlurk` or view your lurk-status with `!lurker @`",
                            '@',
                            name,
                        ),
                        true,
                    ),
                ),
            }
        } else if same_text(command_invoked, "!lurkwith") {
            // join the rest of the words in the message into the lurk-status
            let status: String = write_spaced(&args, 1);
            match self.insert(name, Some(status)) {
                // called !lurkwith while not previously lurking and will now start lurking
                None => Ok(Response::answer(ctx, "have a nice lurk!".to_owned(), true)),
                // called !lurkwith while already lurking with or without a status, will
                // continue lurking but with an updated status
                Some(_) => Ok(
                    Response::answer(ctx, "lurk status successfully updated!".to_owned(), true),
                ),
            }
        } else if same_text(command_invoked, "!unlurk") {
            match self.remove(name) {
                // called !unlurk while previously lurking and will now stop lurking
                Some(previous_status) => {
                    let status: String = match previous_status {
                        Some(given) => given,
                        None => "during your lurk!".to_owned(),
                    };
                    Ok(
                        Response::answer(
                            ctx,
                            replace_char(
                                "welcome back! hope you were productive %",
                                '%',
                                status.as_str(),
                            ),
                            true,
                        ),
                    )
                },
                // called !unlurk while not previously lurking and will continue not lurking
                None => Ok(
                    Response::answer(
                        ctx,
                        "you weren't lurking but welcome back anyway!".to_owned(),
                        true,
                    ),
                ),
            }
        } else if same_text(command_invoked, "!lurker") {
            // join the rest of the words in the message into the username
            let mut username: String = write_spaced(&args, 1);

            // if no username provided, assume chatter's name as username
            if username.as_str().is_empty() {
                username = ctx.chatter.name.clone();
            }
            // if username starts with @, remove it
            let letters: Vec<char> = chars_of(username.as_str());
            if letters.len() == 0 {
                return Err("chatter.name received empty".to_owned());
            }
            if letters[0] == '@' {
                username = cut(username.as_str(), 1, letters.len());
            }
            assert(username@ =~= asked_about(texts(args@), ctx@.chatter_name));
            match self.find(username.as_str()) {
                // called !lurker for username that is lurking with or without a status
                Some(i) => {
                    let status: String = match &self.lurkers()[i].status {
                        Some(given) => given.clone(),
                        None => "with no status".to_owned(),
                    };
                    let who: String = glue("@", username.as_str());
                    let told: String = replace_char("@ is lurking %", '@', who.as_str());
                    Ok(Response::announce(replace_char(told.as_str(), '%', status.as_str()), true))
                },
                // called !lurker for username that is not currently lurking
                None => Ok(Response::announce("you're not lurking".to_owned(), true)),
            }
        } else if same_text(command_invoked, "!lurkers") {
            let list: &Vec<Lurker> = self.lurkers();
            let all: String = if list.len() == 0 {
                "<none>".to_owned()
            } else {
                write_mentions(list, 0)
            };
            Ok(Response::announce(glue("Lurkers: ", all.as_str()), true))
        } else {
            Err(
                "invoked lurk command without first word being any of the commands [\"lurk\", \"lurkwith\", \"unlurk\", \"lurker\", \"lurkers\"]".to_owned(),
            )
        }
    }

    fn help(&self) -> (usage: String) {
        "usage: `!lurk` or `!lurkwith <status>` or `!unlurk` or `!lurker [@username]` or `!lurkers`".to_owned()
    }
}

/// A place, once found, stays the place however far the search goes on.
pub proof fn lemma_seat_stays(
    list: Seq<(Seq<char>, Option<Seq<char>>)>,
    name: Seq<char>,
    k: int,
    n: int,
)
    requires
        0 <= k <= n,
        seat(list, name, k) is Some,
    ensures
        seat(list, name, n) == seat(list, name, k),
    decreases n - k,
{
    if k < n {
        lemma_seat_stays(list, name, k, n - 1);
    }
}

} // verus!
