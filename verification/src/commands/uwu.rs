//! Responds with random UwU kaomoji
//!
//! Broadcaster, moderators, & VIPs automatically have privilege to add new kaomoji
//!
//! usage: ```!uwu ?[index]``` ```!uwu [kaomoji]``` ```!uwu remove ?[kaomoji / index]```

use crate::commands::default_limit;
use crate::commands::default_rate_limit;
use crate::commands::ChatCommand;
use crate::message::one_answer;
use crate::message::ChatMessage;
use crate::message::MessageView;
use crate::message::Response;
use crate::message::ResponseView;
use crate::random::pick;
use crate::spam::RateLimit;
use crate::text::after_first;
use crate::text::before_first;
use crate::text::decimal;
use crate::text::glue;
use crate::text::glue3;
use crate::text::lowercased;
use crate::text::parse_isize;
use crate::text::parsed_isize;
use crate::text::same_text;
use crate::text::split_at_first;
use crate::text::texts;
use crate::text::to_decimal;
use crate::text::to_lowercase;
use crate::text::trim;
use crate::text::trimmed;
use vstd::prelude::*;

verus! {

/// A kaomoji and the user who added it.
#[derive(Debug, Clone, PartialEq, Eq)]
pub struct Kaomoji {
    string: String,
    user_id: String,
}

impl View for Kaomoji {
    type V = (Seq<char>, Seq<char>);

    closed spec fn view(&self) -> (Seq<char>, Seq<char>) {
        (self.string@, self.user_id@)
    }
}

/// The user that the kaomoji of the house belong to.
pub open spec fn house_id() -> Seq<char> {
    "938429017"@
}

impl Kaomoji {
    /// The kaomoji `string`, added by `user_id`.
    pub fn new(string: &str, user_id: &str) -> (kaomoji: Self)
        ensures
            kaomoji@ == (string@, user_id@),
    {
        Self { string: string.to_owned(), user_id: user_id.to_owned() }
    }

    /// The kaomoji `string`, added by the house.
    pub fn new_dummy(string: &str) -> (kaomoji: Self)
        ensures
            kaomoji@ == (string@, house_id()),
    {
        Self { string: string.to_owned(), user_id: "938429017".to_owned() }
    }

    /// The kaomoji itself.
    pub fn string(&self) -> (string: &String)
        ensures
            string@ == self@.0,
    {
        &self.string
    }

    /// The user who added the kaomoji.
    pub fn user_id(&self) -> (user_id: &String)
        ensures
            user_id@ == self@.1,
    {
        &self.user_id
    }

    /// A copy of the kaomoji.
    pub fn copy(&self) -> (kaomoji: Self)
        ensures
            kaomoji@ == self@,
    {
        Self { string: self.string.clone(), user_id: self.user_id.clone() }
    }
}

impl Default for Kaomoji {
    fn default() -> (kaomoji: Self)
        ensures
            kaomoji@ == ("UwU"@, house_id()),
    {
        Self::new_dummy("UwU")
    }
}

/// Each of `list` as text.
pub open spec fn kaomoji_views(list: Seq<Kaomoji>) -> Seq<(Seq<char>, Seq<char>)> {
    Seq::new(list.len(), |i: int| list[i]@)
}

/// The place that `index` means in a list of `len` entries, if it means one.
/// An index below zero counts from the end: -1 is the last entry.
pub open spec fn place_of(index: int, len: int) -> Option<int> {
    if 0 <= index < len {
        Some(index)
    } else if index < 0 && 0 <= len + index {
        Some(len + index)
    } else {
        None
    }
}

/// The place of the first entry of `list` that is the kaomoji `string`, among
/// the first `k`.
pub open spec fn first_place(list: Seq<(Seq<char>, Seq<char>)>, string: Seq<char>, k: int) -> Option<
    int,
>
    decreases k,
{
    if k <= 0 {
        None
    } else if first_place(list, string, k - 1) is Some {
        first_place(list, string, k - 1)
    } else if list[k - 1].0 == string {
        Some(k - 1)
    } else {
        None
    }
}

/// Whether the kaomoji `string` is in `list`.
pub open spec fn holds(list: Seq<(Seq<char>, Seq<char>)>, string: Seq<char>) -> bool {
    first_place(list, string, list.len() as int) is Some
}

/// What is found is in the list, and what is not found is not.
pub proof fn lemma_first_place(list: Seq<(Seq<char>, Seq<char>)>, string: Seq<char>, k: int)
    requires
        0 <= k <= list.len(),
    ensures
        match first_place(list, string, k) {
            Some(i) => 0 <= i < k && list[i].0 == string,
            None => forall|j: int| 0 <= j < k ==> (#[trigger] list[j]).0 != string,
        },
    decreases k,
{
    if k > 0 {
        lemma_first_place(list, string, k - 1);
    }
}

/// A place, once found, stays the place however far the search goes on.
pub proof fn lemma_first_place_stays(
    list: Seq<(Seq<char>, Seq<char>)>,
    string: Seq<char>,
    k: int,
    n: int,
)
    requires
        0 <= k <= n,
        first_place(list, string, k) is Some,
    ensures
        first_place(list, string, n) == first_place(list, string, k),
    decreases n - k,
{
    if k < n {
        lemma_first_place_stays(list, string, k, n - 1);
    }
}

/// A list of kaomoji.
#[derive(Debug)]
pub struct KaomojiList(Vec<Kaomoji>);

impl View for KaomojiList {
    type V = Seq<(Seq<char>, Seq<char>)>;

    closed spec fn view(&self) -> Seq<(Seq<char>, Seq<char>)> {
        kaomoji_views(self.0@)
    }
}

impl KaomojiList {
    /// The list of the kaomoji `list`.
    pub fn from_vec(list: Vec<Kaomoji>) -> (kaomoji: Self)
        ensures
            kaomoji@ == kaomoji_views(list@),
    {
        KaomojiList(list)
    }

    /// The kaomoji of the list.
    pub fn entries(&self) -> (list: &Vec<Kaomoji>)
        ensures
            kaomoji_views(list@) == self@,
    {
        &self.0
    }

    /// The number of kaomoji.
    pub fn count(&self) -> (n: usize)
        ensures
            n == self@.len(),
    {
        self.0.len()
    }

    /// One of the kaomoji, whichever chance picks; the kaomoji of the house
    /// where the list is empty.
    pub fn random(&self) -> (kaomoji: Kaomoji)
        ensures
            if self@.len() == 0 {
                kaomoji@ == ("UwU"@, house_id())
            } else {
                self@.contains(kaomoji@)
            },
    {
        match pick(&self.0) {
            Some(found) => {
                proof {
                    let i = choose|i: int| 0 <= i < self.0@.len() && self.0@[i] == *found;
                    assert(self@[i] == found@);
                }
                found.copy()
            },
            None => Kaomoji::default(),
        }
    }

    /// The place that `index` means, if it means one.
    fn place(&self, index: isize) -> (place: Option<usize>)
        ensures
            match place {
                Some(i) => place_of(index as int, self@.len() as int) == Some(i as int),
                None => place_of(index as int, self@.len() as int) is None,
            },
    {
        let len: i128 = self.0.len() as i128;
        let wanted: i128 = if index >= 0 {
            index as i128
        } else {
            len + index as i128
        };
        if 0 <= wanted && wanted < len {
            Some(wanted as usize)
        } else {
            None
        }
    }

    /// The kaomoji at `index`, if there is one. An index below zero counts
    /// from the end.
    pub fn get_index(&self, index: isize) -> (kaomoji: Option<Kaomoji>)
        ensures
            match kaomoji {
                Some(found) => place_of(index as int, self@.len() as int) matches Some(i)
                    && found@ == self@[i],
                None => place_of(index as int, self@.len() as int) is None,
            },
    {
        match self.place(index) {
            Some(i) => Some(self.0[i].copy()),
            None => None,
        }
    }

    /// The place of the first entry that is the kaomoji `kaomoji`.
    fn position(&self, kaomoji: &str) -> (place: Option<usize>)
        ensures
            match place {
                Some(i) => first_place(self@, kaomoji@, self@.len() as int) == Some(i as int) && i
                    < self@.len(),
                None => first_place(self@, kaomoji@, self@.len() as int) is None,
            },
    {
        let mut i: usize = 0;
        while i < self.0.len()
            invariant
                i <= self.0.len(),
                first_place(self@, kaomoji@, i as int) is None,
            decreases self.0.len() - i,
        {
            if same_text(self.0[i].string.as_str(), kaomoji) {
                proof {
                    lemma_first_place_stays(self@, kaomoji@, i + 1, self@.len() as int);
                }
                return Some(i);
            }
            i = i + 1;
        }
        None
    }

    /// Whether the kaomoji `kaomoji` is in the list.
    pub fn contains(&self, kaomoji: &str) -> (found: bool)
        ensures
            found == holds(self@, kaomoji@),
    {
        self.position(kaomoji).is_some()
    }

    /// Adds `kaomoji` at the end, unless the list holds it already.
    pub fn add(&mut self, kaomoji: Kaomoji)
        ensures
            final(self)@ == if holds(old(self)@, kaomoji@.0) {
                old(self)@
            } else {
                old(self)@.push(kaomoji@)
            },
    {
        if !self.contains(kaomoji.string.as_str()) {
            let ghost before = self@;
            self.0.push(kaomoji);
            assert(self@ =~= before.push(kaomoji@));
        }
    }

    /// Removes the first entry that is the kaomoji `kaomoji`, and returns it.
    pub fn remove_kaomoji(&mut self, kaomoji: &str) -> (removed: Option<Kaomoji>)
        ensures
            match first_place(old(self)@, kaomoji@, old(self)@.len() as int) {
                Some(i) => removed matches Some(gone) && gone@ == old(self)@[i] && final(self)@
                    == old(self)@.remove(i),
                None => removed is None && final(self)@ == old(self)@,
            },
    {
        proof {
            lemma_first_place(self@, kaomoji@, self@.len() as int);
        }
        match self.position(kaomoji) {
            Some(index) => {
                let ghost before = self@;
                let gone: Kaomoji = self.0.remove(index);
                assert(self@ =~= before.remove(index as int));
                Some(gone)
            },
            None => None,
        }
    }

    /// Remove by index with negative indexing
    pub fn remove_index(&mut self, index: isize) -> (removed: Option<Kaomoji>)
        ensures
            match place_of(index as int, old(self)@.len() as int) {
                Some(i) => removed matches Some(gone) && gone@ == old(self)@[i] && final(self)@
                    == old(self)@.remove(i),
                None => removed is None && final(self)@ == old(self)@,
            },
    {
        match self.place(index) {
            Some(i) => {
                let ghost before = self@;
                let gone: Kaomoji = self.0.remove(i);
                assert(self@ =~= before.remove(i as int));
                Some(gone)
            },
            None => None,
        }
    }

    /// Removes the last entry, and returns it.
    pub fn remove_last(&mut self) -> (removed: Option<Kaomoji>)
        ensures
            if old(self)@.len() > 0 {
                removed matches Some(gone) && gone@ == old(self)@.last() && final(self)@ == old(
                    self,
                )@.drop_last()
            } else {
                removed is None && final(self)@ == old(self)@
            },
    {
        let ghost before = self@;
        let gone: Option<Kaomoji> = self.0.pop();
        proof {
            if before.len() > 0 {
                assert(self@ =~= before.drop_last());
            } else {
                assert(self@ =~= before);
            }
        }
        gone
    }
}

/// The kaomoji that a list holds from the start.
pub open spec fn house_kaomoji() -> Seq<Seq<char>> {
    seq![
        "UwU"@,
        "OwO"@,
        "0-0"@,
        "-_-"@,
        ":3"@,
        "(˶˃ ᵕ ˂˶) .ᐟ.ᐟ"@,
        "⸜(｡˃ ᵕ ˂ )⸝♡"@,
        "(^_^)"@,
        "(^>-<^)"@,
        "∩(·ω·)∩"@,
        "^ω^"@,
        "^_^"@,
        "=^_^="@,
        "(＾ｖ＾)"@,
        "(*´▽｀*)"@,
        "(´･ω･`)"@,
        "(´；ω；`)"@,
        "(˶◜ᵕ◝˶)"@,
        "∘ ∘ ∘ ( °ヮ° ) ?"@,
        "( ˶°ㅁ°) !!"@,
        "(๑-﹏-๑)"@,
        " ˶ᵔ ᵕ ᵔ˶ "@,
    ]
}

/// The list that the command begins with: the kaomoji of the house.
pub open spec fn house_list() -> Seq<(Seq<char>, Seq<char>)> {
    Seq::new(house_kaomoji().len(), |i: int| (house_kaomoji()[i], house_id()))
}

impl Default for KaomojiList {
    fn default() -> (list: Self)
        ensures
            list@ == house_list(),
    {
        let mut list: Vec<Kaomoji> = Vec::new();
        list.push(Kaomoji::new_dummy("UwU"));
        list.push(Kaomoji::new_dummy("OwO"));
        list.push(Kaomoji::new_dummy("0-0"));
        list.push(Kaomoji::new_dummy("-_-"));
        list.push(Kaomoji::new_dummy(":3"));
        list.push(Kaomoji::new_dummy("(˶˃ ᵕ ˂˶) .ᐟ.ᐟ"));
        list.push(Kaomoji::new_dummy("⸜(｡˃ ᵕ ˂ )⸝♡"));
        list.push(Kaomoji::new_dummy("(^_^)"));
        list.push(Kaomoji::new_dummy("(^>-<^)"));
        list.push(Kaomoji::new_dummy("∩(·ω·)∩"));
        list.push(Kaomoji::new_dummy("^ω^"));
        list.push(Kaomoji::new_dummy("^_^"));
        list.push(Kaomoji::new_dummy("=^_^="));
        list.push(Kaomoji::new_dummy("(＾ｖ＾)"));
        list.push(Kaomoji::new_dummy("(*´▽｀*)"));
        list.push(Kaomoji::new_dummy("(´･ω･`)"));
        list.push(Kaomoji::new_dummy("(´；ω；`)"));
        list.push(Kaomoji::new_dummy("(˶◜ᵕ◝˶)"));
        list.push(Kaomoji::new_dummy("∘ ∘ ∘ ( °ヮ° ) ?"));
        list.push(Kaomoji::new_dummy("( ˶°ㅁ°) !!"));
        list.push(Kaomoji::new_dummy("(๑-﹏-๑)"));
        list.push(Kaomoji::new_dummy(" ˶ᵔ ᵕ ᵔ˶ "));
        let kaomoji = KaomojiList(list);
        assert(kaomoji@ =~= house_list());
        kaomoji
    }
}

/// What a call of the command asks for.
#[derive(Debug, PartialEq, Eq)]
pub enum MostlyUwUArgs {
    DisplayRandom,
    DisplayIndex { index: isize },
    AddKaomoji { kaomoji: String },
    RemoveKaomoji { kaomoji: String },
    RemoveIndex { index: isize },
    RemoveLast,
}

/// What a call of the command asks for, as text.
pub enum UwUArgsView {
    DisplayRandom,
    DisplayIndex { index: isize },
    AddKaomoji { kaomoji: Seq<char> },
    RemoveKaomoji { kaomoji: Seq<char> },
    RemoveIndex { index: isize },
    RemoveLast,
}

impl View for MostlyUwUArgs {
    type V = UwUArgsView;

    open spec fn view(&self) -> UwUArgsView {
        match self {
            MostlyUwUArgs::DisplayRandom => UwUArgsView::DisplayRandom,
            MostlyUwUArgs::DisplayIndex { index } => UwUArgsView::DisplayIndex { index: *index },
            MostlyUwUArgs::AddKaomoji { kaomoji } => UwUArgsView::AddKaomoji { kaomoji: kaomoji@ },
            MostlyUwUArgs::RemoveKaomoji { kaomoji } => UwUArgsView::RemoveKaomoji {
                kaomoji: kaomoji@,
            },
            MostlyUwUArgs::RemoveIndex { index } => UwUArgsView::RemoveIndex { index: *index },
            MostlyUwUArgs::RemoveLast => UwUArgsView::RemoveLast,
        }
    }
}

/// What stands behind the command in `text`: all behind the first blank, less
/// the white space around it.
pub open spec fn content_of(text: Seq<char>) -> Seq<char> {
    trimmed(after_first(text, ' '))
}

/// What the message `text` asks of the command.
///
/// Nothing behind the command asks for a random kaomoji. A first word
/// `remove`, in upper or lower case, asks to remove: the last entry where
/// nothing follows, the entry at an index where a number follows, else the
/// kaomoji that follows. A number as the first word asks for the entry at
/// that index. Anything else is a kaomoji to add.
pub open spec fn asked(text: Seq<char>) -> UwUArgsView {
    let content = content_of(text);
    let first = before_first(content, ' ');
    let rest = after_first(content, ' ');
    if content.len() == 0 {
        UwUArgsView::DisplayRandom
    } else if lowercased(first) == "remove"@ {
        if rest.len() == 0 {
            UwUArgsView::RemoveLast
        } else {
            match parsed_isize(rest) {
                Some(index) => UwUArgsView::RemoveIndex { index },
                None => UwUArgsView::RemoveKaomoji { kaomoji: trimmed(rest) },
            }
        }
    } else {
        match parsed_isize(first) {
            Some(index) => UwUArgsView::DisplayIndex { index },
            None => UwUArgsView::AddKaomoji { kaomoji: trimmed(content) },
        }
    }
}

impl MostlyUwUArgs {
    /// Reads what the message `text` asks of the command.
    pub fn parse(text: &str) -> (args: Self)
        ensures
            args@ == asked(text@),
    {
        let (_, behind) = split_at_first(text, ' ');
        let content: String = trim(behind.as_str());

        if content.as_str().is_empty() {
            MostlyUwUArgs::DisplayRandom
        } else {
            let (first, rest) = split_at_first(content.as_str(), ' ');
            if same_text(to_lowercase(first.as_str()).as_str(), "remove") {
                if rest.as_str().is_empty() {
                    MostlyUwUArgs::RemoveLast
                } else {
                    match parse_isize(rest.as_str()) {
                        Some(index) => MostlyUwUArgs::RemoveIndex { index },
                        None => MostlyUwUArgs::RemoveKaomoji { kaomoji: trim(rest.as_str()) },
                    }
                }
            } else {
                match parse_isize(first.as_str()) {
                    Some(index) => MostlyUwUArgs::DisplayIndex { index },
                    None => MostlyUwUArgs::AddKaomoji { kaomoji: trim(content.as_str()) },
                }
            }
        }
    }
}

/// Whether one of `badges` is `badge`.
pub fn has_badge(badges: &Vec<String>, badge: &str) -> (found: bool)
    ensures
        found == texts(badges@).contains(badge@),
{
    let mut i: usize = 0;
    while i < badges.len()
        invariant
            i <= badges.len(),
            forall|k: int| 0 <= k < i ==> (#[trigger] texts(badges@)[k]) != badge@,
        decreases badges.len() - i,
    {
        if same_text(badges[i].as_str(), badge) {
            assert(texts(badges@)[i as int] == badge@);
            return true;
        }
        i = i + 1;
    }
    false
}

/// Whether the sender of `ctx` runs the channel: a moderator, or the
/// broadcaster in person.
pub open spec fn privileged(ctx: MessageView) -> bool {
    ctx.moderator || (ctx.chatter_id == ctx.broadcaster_id && ctx.chatter_id.len() > 0)
}

/// What the command tells of an index that means no entry of `len`.
pub open spec fn out_of_bounds(len: nat) -> Seq<char> {
    "Index out of bounds ("@ + decimal(len) + "), oh no (╥﹏╥)"@
}

/// The answer to someone who may not do what they asked.
pub open spec fn denied(ctx: MessageView) -> ResponseView {
    one_answer(ctx, "You can't do that. (•̀⤙•́ )"@, false)
}

/// The `uwu` command: a list of kaomoji.
pub struct MostlyUwU {
    list: KaomojiList,
    /// If to allow any user to add a kaomoji
    kaomoji_add_permissions_user: bool,
    /// Whether the list has changed since it was last saved
    unsaved: bool,
}

impl MostlyUwU {
    /// The kaomoji of the command, each with the user who added it.
    pub closed spec fn kaomoji(&self) -> Seq<(Seq<char>, Seq<char>)> {
        self.list@
    }

    /// Whether any user may add a kaomoji.
    pub closed spec fn open_to_all(&self) -> bool {
        self.kaomoji_add_permissions_user
    }

    /// Whether the list has changed since it was last saved.
    pub closed spec fn is_unsaved(&self) -> bool {
        self.unsaved
    }

    /// Whether `after` is the command as it is.
    pub open spec fn same_as(&self, after: Self) -> bool {
        &&& after.kaomoji() == self.kaomoji()
        &&& after.open_to_all() == self.open_to_all()
        &&& after.is_unsaved() == self.is_unsaved()
    }

    /// Whether `after` is the command with the list `list`, not saved yet.
    pub open spec fn changed_to(&self, after: Self, list: Seq<(Seq<char>, Seq<char>)>) -> bool {
        &&& after.kaomoji() == list
        &&& after.open_to_all() == self.open_to_all()
        &&& after.is_unsaved()
    }

    /// Whether the sender of `ctx` may add a kaomoji: anyone where the command
    /// is open to all, else who runs the channel or wears the badge `vip`.
    pub open spec fn may_add(&self, ctx: MessageView) -> bool {
        self.open_to_all() || privileged(ctx) || ctx.badges.contains("vip"@)
    }

    /// The command with the kaomoji `list`.
    pub fn with_list(list: KaomojiList) -> (uwu: Self)
        ensures
            uwu.kaomoji() == list@,
            !uwu.open_to_all(),
            !uwu.is_unsaved(),
    {
        Self { list, kaomoji_add_permissions_user: false, unsaved: false }
    }

    /// The kaomoji of the command.
    pub fn list(&self) -> (list: &KaomojiList)
        ensures
            list@ == self.kaomoji(),
    {
        &self.list
    }

    /// Whether the list has changed since it was last saved.
    pub fn unsaved(&self) -> (unsaved: bool)
        ensures
            unsaved == self.is_unsaved(),
    {
        self.unsaved
    }

    /// Notes that the list was saved as it is.
    pub fn saved(&mut self)
        ensures
            final(self).kaomoji() == old(self).kaomoji(),
            final(self).open_to_all() == old(self).open_to_all(),
            !final(self).is_unsaved(),
    {
        self.unsaved = false;
    }

    /// Whether the sender of `ctx` runs the channel.
    pub fn is_privileged(ctx: &ChatMessage) -> (yes: bool)
        ensures
            yes == privileged(ctx@),
    {
        ctx.moderator || (same_text(ctx.chatter.id.as_str(), ctx.broadcaster.id.as_str())
            && !ctx.chatter.id.as_str().is_empty())
    }

    /// The answer to an index that means no entry.
    fn index_out_of_bounds(&self, ctx: &ChatMessage) -> (response: Response)
        ensures
            response@ == one_answer(ctx@, out_of_bounds(self.kaomoji().len()), false),
    {
        let count: String = to_decimal(self.list.count() as u128);
        Response::answer(
            ctx,
            glue3("Index out of bounds (", count.as_str(), "), oh no (╥﹏╥)"),
            false,
        )
    }

    /// The answer to someone who may not do what they asked.
    fn invalid_permissions(ctx: &ChatMessage) -> (response: Response)
        ensures
            response@ == denied(ctx@),
    {
        Response::answer(ctx, "You can't do that. (•̀⤙•́ )".to_owned(), false)
    }

    /// Answers with the kaomoji at `index`.
    pub fn display_index(&self, ctx: &ChatMessage, index: isize) -> (response: Response)
        ensures
            response@ == one_answer(
                ctx@,
                match place_of(index as int, self.kaomoji().len() as int) {
                    Some(i) => self.kaomoji()[i].0,
                    None => out_of_bounds(self.kaomoji().len()),
                },
                false,
            ),
    {
        match self.list.get_index(index) {
            Some(kaomoji) => Response::answer(ctx, kaomoji.string().clone(), false),
            None => self.index_out_of_bounds(ctx),
        }
    }

    /// Adds the kaomoji `kaomoji` in the name of the sender of `ctx`, if the
    /// sender may add and the list does not hold it yet.
    pub fn add_kaomoji(&mut self, ctx: &ChatMessage, kaomoji: &str) -> (response: Response)
        ensures
            if !old(self).may_add(ctx@) {
                old(self).same_as(*final(self)) && response@ == denied(ctx@)
            } else if holds(old(self).kaomoji(), kaomoji@) {
                old(self).same_as(*final(self)) && response@ == one_answer(
                    ctx@,
                    kaomoji@ + " Already exists (◔_◔)"@,
                    false,
                )
            } else {
                old(self).changed_to(
                    *final(self),
                    old(self).kaomoji().push((kaomoji@, ctx@.chatter_id)),
                ) && response@ == one_answer(ctx@, kaomoji@ + " was added ( ˶ˆᗜˆ˵ )"@, false)
            },
    {
        if !(self.kaomoji_add_permissions_user || MostlyUwU::is_privileged(ctx) || has_badge(
            &ctx.badges,
            "vip",
        )) {
            return MostlyUwU::invalid_permissions(ctx);
        }
        let kaomoji: Kaomoji = Kaomoji::new(kaomoji, ctx.chatter.id.as_str());
        if !self.list.contains(kaomoji.string().as_str()) {
            let response: Response = Response::answer(
                ctx,
                glue(kaomoji.string().as_str(), " was added ( ˶ˆᗜˆ˵ )"),
                false,
            );
            self.list.add(kaomoji);
            self.unsaved = true;
            response
        } else {
            Response::answer(ctx, glue(kaomoji.string().as_str(), " Already exists (◔_◔)"), false)
        }
    }

    /// Removes the kaomoji `kaomoji`, if the sender of `ctx` runs the channel
    /// and the list holds it.
    pub fn remove_kaomoji(&mut self, ctx: &ChatMessage, kaomoji: &str) -> (response: Response)
        ensures
            if !privileged(ctx@) {
                old(self).same_as(*final(self)) && response@ == denied(ctx@)
            } else {
                match first_place(
                    old(self).kaomoji(),
                    kaomoji@,
                    old(self).kaomoji().len() as int,
                ) {
                    Some(i) => old(self).changed_to(*final(self), old(self).kaomoji().remove(i))
                        && response@ == one_answer(
                        ctx@,
                        old(self).kaomoji()[i].0 + " was removed ꃋᴖꃋ"@,
                        false,
                    ),
                    None => old(self).same_as(*final(self)) && response@ == one_answer(
                        ctx@,
                        "Couldn't find kaomoji to remove (ㅠ‸ㅠ)"@,
                        false,
                    ),
                }
            },
    {
        if !MostlyUwU::is_privileged(ctx) {
            return MostlyUwU::invalid_permissions(ctx);
        }
        match self.list.remove_kaomoji(kaomoji) {
            Some(gone) => {
                self.unsaved = true;
                Response::answer(ctx, glue(gone.string().as_str(), " was removed ꃋᴖꃋ"), false)
            },
            None => Response::answer(
                ctx,
                "Couldn't find kaomoji to remove (ㅠ‸ㅠ)".to_owned(),
                false,
            ),
        }
    }

    /// Removes the kaomoji at `index`, if the sender of `ctx` runs the channel
    /// and the index means an entry.
    pub fn remove_index(&mut self, ctx: &ChatMessage, index: isize) -> (response: Response)
        ensures
            if !privileged(ctx@) {
                old(self).same_as(*final(self)) && response@ == denied(ctx@)
            } else {
                match place_of(index as int, old(self).kaomoji().len() as int) {
                    Some(i) => old(self).changed_to(*final(self), old(self).kaomoji().remove(i))
                        && response@ == one_answer(
                        ctx@,
                        old(self).kaomoji()[i].0 + " was removed (ㅠ﹏ㅠ)"@,
                        false,
                    ),
                    None => old(self).same_as(*final(self)) && response@ == one_answer(
                        ctx@,
                        out_of_bounds(old(self).kaomoji().len()),
                        false,
                    ),
                }
            },
    {
        if !MostlyUwU::is_privileged(ctx) {
            return MostlyUwU::invalid_permissions(ctx);
        }
        match self.list.remove_index(index) {
            Some(gone) => {
                self.unsaved = true;
                Response::answer(ctx, glue(gone.string().as_str(), " was removed (ㅠ﹏ㅠ)"), false)
            },
            None => self.index_out_of_bounds(ctx),
        }
    }

    /// Removes the last kaomoji, if the sender of `ctx` runs the channel and
    /// there is one.
    pub fn remove_last(&mut self, ctx: &ChatMessage) -> (response: Response)
        ensures
            if !privileged(ctx@) {
                old(self).same_as(*final(self)) && response@ == denied(ctx@)
            } else if old(self).kaomoji().len() > 0 {
                old(self).changed_to(*final(self), old(self).kaomoji().drop_last()) && response@
                    == one_answer(ctx@, old(self).kaomoji().last().0 + " was removed .‸."@, false)
            } else {
                old(self).same_as(*final(self)) && response@ == one_answer(
                    ctx@,
                    "There's no kaomoji, what did you do? (ó﹏ò｡)"@,
                    false,
                )
            },
    {
        if !MostlyUwU::is_privileged(ctx) {
            return MostlyUwU::invalid_permissions(ctx);
        }
        match self.list.remove_last() {
            Some(gone) => {
                self.unsaved = true;
                Response::answer(ctx, glue(gone.string().as_str(), " was removed .‸."), false)
            },
            None => Response::answer(
                ctx,
                "There's no kaomoji, what did you do? (ó﹏ò｡)".to_owned(),
                false,
            ),
        }
    }
}

impl ChatCommand for MostlyUwU {
    open spec fn aliases() -> Seq<Seq<char>> {
        seq!["uwu"@, "UwU"@, "owo"@, "OwO"@, "kaomoji"@]
    }

    open spec fn usage(&self) -> Seq<char> {
        "Responds UwU kaomoji\nusage: \"!uwu ?[index]\" - Random kaomoji\n\"!uwu [kaomoji]\" - Add kaomoji\n\"!uwu remove ?[kaomoji / index]\" - Remove kaomoji"@
    }

    open spec fn limit(&self) -> RateLimit {
        default_limit()
    }

    /// The command does what the message asks (see [`asked`]), as far as the
    /// sender may ask it, and answers what it did. A random kaomoji is one of
    /// the list, whichever chance picks, or `UwU` where the list is empty. No
    /// answer has to arrive.
    open spec fn handles(
        &self,
        ctx: MessageView,
        after: Self,
        outcome: Result<ResponseView, Seq<char>>,
    ) -> bool {
        let list = self.kaomoji();
        match asked(ctx.text) {
            UwUArgsView::DisplayRandom => {
                &&& self.same_as(after)
                &&& exists|shown: (Seq<char>, Seq<char>)|
                    {
                        &&& if list.len() == 0 {
                            shown == ("UwU"@, house_id())
                        } else {
                            list.contains(shown)
                        }
                        &&& outcome == Ok::<ResponseView, Seq<char>>(
                            #[trigger] one_answer(ctx, shown.0, false),
                        )
                    }
            },
            UwUArgsView::DisplayIndex { index } => {
                &&& self.same_as(after)
                &&& outcome == Ok::<ResponseView, Seq<char>>(
                    one_answer(
                        ctx,
                        match place_of(index as int, list.len() as int) {
                            Some(i) => list[i].0,
                            None => out_of_bounds(list.len()),
                        },
                        false,
                    ),
                )
            },
            UwUArgsView::AddKaomoji { kaomoji } => {
                if !self.may_add(ctx) {
                    self.same_as(after) && outcome == Ok::<ResponseView, Seq<char>>(denied(ctx))
                } else if holds(list, kaomoji) {
                    self.same_as(after) && outcome == Ok::<ResponseView, Seq<char>>(
                        one_answer(ctx, kaomoji + " Already exists (◔_◔)"@, false),
                    )
                } else {
                    self.changed_to(after, list.push((kaomoji, ctx.chatter_id))) && outcome == Ok::<
                        ResponseView,
                        Seq<char>,
                    >(one_answer(ctx, kaomoji + " was added ( ˶ˆᗜˆ˵ )"@, false))
                }
            },
            UwUArgsView::RemoveKaomoji { kaomoji } => {
                if !privileged(ctx) {
                    self.same_as(after) && outcome == Ok::<ResponseView, Seq<char>>(denied(ctx))
                } else {
                    match first_place(list, kaomoji, list.len() as int) {
                        Some(i) => self.changed_to(after, list.remove(i)) && outcome == Ok::<
                            ResponseView,
                            Seq<char>,
                        >(one_answer(ctx, list[i].0 + " was removed ꃋᴖꃋ"@, false)),
                        None => self.same_as(after) && outcome == Ok::<ResponseView, Seq<char>>(
                            one_answer(ctx, "Couldn't find kaomoji to remove (ㅠ‸ㅠ)"@, false),
                        ),
                    }
                }
            },
            UwUArgsView::RemoveIndex { index } => {
                if !privileged(ctx) {
                    self.same_as(after) && outcome == Ok::<ResponseView, Seq<char>>(denied(ctx))
                } else {
                    match place_of(index as int, list.len() as int) {
                        Some(i) => self.changed_to(after, list.remove(i)) && outcome == Ok::<
                            ResponseView,
                            Seq<char>,
                        >(one_answer(ctx, list[i].0 + " was removed (ㅠ﹏ㅠ)"@, false)),
                        None => self.same_as(after) && outcome == Ok::<ResponseView, Seq<char>>(
                            one_answer(ctx, out_of_bounds(list.len()), false),
                        ),
                    }
                }
            },
            UwUArgsView::RemoveLast => {
                if !privileged(ctx) {
                    self.same_as(after) && outcome == Ok::<ResponseView, Seq<char>>(denied(ctx))
                } else if list.len() > 0 {
                    self.changed_to(after, list.drop_last()) && outcome == Ok::<
                        ResponseView,
                        Seq<char>,
                    >(one_answer(ctx, list.last().0 + " was removed .‸."@, false))
                } else {
                    self.same_as(after) && outcome == Ok::<ResponseView, Seq<char>>(
                        one_answer(ctx, "There's no kaomoji, what did you do? (ó﹏ò｡)"@, false),
                    )
                }
            },
        }
    }

    fn new() -> (uwu: Self)
        ensures
            uwu.kaomoji() == house_list(),
            !uwu.open_to_all(),
            !uwu.is_unsaved(),
    {
        MostlyUwU::with_list(KaomojiList::default())
    }

    fn names() -> (names: Vec<String>) {
        let mut names: Vec<String> = Vec::new();
        names.push("uwu".to_owned());
        names.push("UwU".to_owned());
        names.push("owo".to_owned());
        names.push("OwO".to_owned());
        names.push("kaomoji".to_owned());
        assert(texts(names@) =~= Self::aliases());
        names
    }

    fn rate_limit(&self) -> (limit: RateLimit) {
        default_rate_limit()
    }

    fn handle(&mut self, ctx: &ChatMessage) -> (outcome: Result<Response, String>) {
        // Collect Args -> Validate permissions -> Execute command
        match MostlyUwUArgs::parse(ctx.text.as_str()) {
            MostlyUwUArgs::DisplayRandom => {
                let kaomoji: Kaomoji = self.list.random();
                let response: Response = Response::answer(ctx, kaomoji.string().clone(), false);
                assert(response@ == one_answer(ctx@, kaomoji@.0, false));
                Ok(response)
            },
            MostlyUwUArgs::DisplayIndex { index } => Ok(self.display_index(ctx, index)),
            MostlyUwUArgs::AddKaomoji { kaomoji } => Ok(self.add_kaomoji(ctx, kaomoji.as_str())),
            MostlyUwUArgs::RemoveKaomoji { kaomoji } => Ok(
                self.remove_kaomoji(ctx, kaomoji.as_str()),
            ),
            MostlyUwUArgs::RemoveIndex { index } => Ok(self.remove_index(ctx, index)),
            MostlyUwUArgs::RemoveLast => Ok(self.remove_last(ctx)),
        }
    }

    fn help(&self) -> (usage: String) {
        "Responds UwU kaomoji\nusage: \"!uwu ?[index]\" - Random kaomoji\n\"!uwu [kaomoji]\" - Add kaomoji\n\"!uwu remove ?[kaomoji / index]\" - Remove kaomoji".to_owned()
    }
}

} // verus!
