//! The registry of commands, and what becomes of a chat message.

use crate::commands::Handler;
use crate::message::outcome_view;
use crate::message::ChatMessage;
use crate::message::Response;
use crate::spam::RateLimit;
use crate::text::texts;
use vstd::hash_map::StringHashMap;
use vstd::prelude::*;

verus! {

// ----------------------------------------------------------------------------
/// A registered command.
pub struct Command {
    inner: Handler,
}

impl View for Command {
    type V = Handler;

    closed spec fn view(&self) -> Handler {
        self.inner
    }
}

impl Command {
    fn new(cmd: Handler) -> (command: Self)
        ensures
            command@ == cmd,
    {
        Self { inner: cmd }
    }

    /// The command, to read.
    pub fn borrow(&self) -> (cmd: &Handler)
        ensures
            *cmd == self@,
    {
        &self.inner
    }

    /// The command, to change.
    pub fn borrow_mut(&mut self) -> (cmd: &mut Handler)
        ensures
            *cmd == old(self)@,
            final(self)@ == *final(cmd),
    {
        &mut self.inner
    }
}

// ----------------------------------------------------------------------------
/// What a registry holds: every command that was ever registered, in the
/// order of registration, and for each name the command it calls now.
pub struct RegistryView {
    /// The commands, in the order in which they were registered.
    pub entries: Seq<Handler>,
    /// For each name, the place of the command in `entries`.
    pub index: Map<Seq<char>, usize>,
}

impl RegistryView {
    /// The place of the command that `name` calls, if it calls one.
    pub open spec fn lookup(self, name: Seq<char>) -> Option<usize> {
        if self.index.contains_key(name) {
            Some(self.index[name])
        } else {
            None
        }
    }

    /// The registry without commands.
    pub open spec fn empty() -> RegistryView {
        RegistryView { entries: Seq::empty(), index: Map::empty() }
    }

    /// The registry after `cmd` was registered: `cmd` stands last, and each of
    /// its names calls it, whether it called another command before or none.
    /// A command that lost a name this way keeps its other names.
    pub open spec fn with(self, cmd: Handler) -> RegistryView {
        RegistryView {
            entries: self.entries.push(cmd),
            index: called_by(self.index, cmd.aliases(), self.entries.len() as usize),
        }
    }

    /// The usage line of the command that each name calls.
    pub open spec fn usages(self) -> Map<Seq<char>, Seq<char>> {
        Map::new(
            |name: Seq<char>| self.index.contains_key(name),
            |name: Seq<char>| self.entries[self.index[name] as int].usage(),
        )
    }

    /// Whether every name calls a command that is there.
    pub open spec fn well_formed(self) -> bool {
        forall|name: Seq<char>| #[trigger]
            self.index.contains_key(name) ==> self.index[name] < self.entries.len()
    }
}

/// The index `index` once `names` call the command at `place`: every other
/// name calls what it called.
pub open spec fn called_by(index: Map<Seq<char>, usize>, names: Seq<Seq<char>>, place: usize) -> Map<
    Seq<char>,
    usize,
> {
    Map::new(
        |name: Seq<char>| index.contains_key(name) || names.contains(name),
        |name: Seq<char>|
            if names.contains(name) {
                place
            } else {
                index[name]
            },
    )
}

/// The last registration wins: once `cmd` is registered, each of its names
/// calls it, and every other name calls what it called. The commands that
/// were there before are all still there, in their places, whether a name
/// still calls them or not.
pub proof fn lemma_last_registration_wins(registry: RegistryView, cmd: Handler, name: Seq<char>)
    requires
        registry.well_formed(),
    ensures
        registry.with(cmd).well_formed(),
        cmd.aliases().contains(name) ==> registry.with(cmd).lookup(name) == Some(
            registry.entries.len() as usize,
        ),
        !cmd.aliases().contains(name) ==> registry.with(cmd).lookup(name) == registry.lookup(name),
        registry.with(cmd).entries.last() == cmd,
        forall|i: int|
            0 <= i < registry.entries.len() ==> registry.with(cmd).entries[i]
                == #[trigger] registry.entries[i],
{
}

/// The index after each of `names` was made to call the command at `place`,
/// one after the other.
spec fn named(index: Map<Seq<char>, usize>, names: Seq<Seq<char>>, place: usize) -> Map<
    Seq<char>,
    usize,
>
    decreases names.len(),
{
    if names.len() == 0 {
        index
    } else {
        named(index, names.drop_last(), place).insert(names.last(), place)
    }
}

/// Naming one after the other comes to this: the given names call the command
/// at `place`, and every other name calls what it called.
proof fn lemma_named(
    index: Map<Seq<char>, usize>,
    names: Seq<Seq<char>>,
    place: usize,
    name: Seq<char>,
)
    ensures
        named(index, names, place).contains_key(name) <==> index.contains_key(name)
            || names.contains(name),
        names.contains(name) ==> named(index, names, place)[name] == place,
        !names.contains(name) ==> named(index, names, place)[name] == index[name],
    decreases names.len(),
{
    if names.len() > 0 {
        let head = names.drop_last();
        lemma_named(index, head, place, name);
        if head.contains(name) {
            let i = choose|i: int| 0 <= i < head.len() && head[i] == name;
            assert(names[i] == name);
        }
        if name == names.last() {
            assert(names[names.len() - 1] == name);
        }
        if names.contains(name) && name != names.last() {
            let i = choose|i: int| 0 <= i < names.len() && names[i] == name;
            assert(head[i] == name);
        }
    }
}

/// The text of each line of `lines`.
pub open spec fn usage_texts(lines: Map<Seq<char>, String>) -> Map<Seq<char>, Seq<char>> {
    Map::new(|name: Seq<char>| lines.contains_key(name), |name: Seq<char>| lines[name]@)
}

/// The usage lines of the commands that `names` call.
spec fn told(registry: RegistryView, names: Seq<Seq<char>>) -> Map<Seq<char>, Seq<char>> {
    Map::new(
        |name: Seq<char>| names.contains(name),
        |name: Seq<char>| registry.entries[registry.index[name] as int].usage(),
    )
}

/// The commands of the bot, by name.
pub struct CommandMap {
    entries: Vec<Command>,
    index: StringHashMap<usize>,
    /// Every name that was registered, in the order of registration.
    names: Vec<String>,
}

impl View for CommandMap {
    type V = RegistryView;

    closed spec fn view(&self) -> RegistryView {
        RegistryView { entries: Seq::new(self.entries@.len(), |i: int| self.entries@[i]@), index: self.index@ }
    }
}

impl CommandMap {
    #[verifier::type_invariant]
    spec fn names_call_entries(self) -> bool {
        &&& forall|name: Seq<char>| #[trigger]
            self.index@.contains_key(name) ==> self.index@[name] < self.entries@.len()
        &&& forall|name: Seq<char>| #[trigger]
            self.index@.contains_key(name) <==> texts(self.names@).contains(name)
    }

    /// A registry without commands.
    pub fn new() -> (map: Self)
        ensures
            map@ == RegistryView::empty(),
    {
        let map = Self { entries: Vec::new(), index: StringHashMap::new(), names: Vec::new() };
        assert(map@.entries =~= RegistryView::empty().entries);
        map
    }

    /// The place of the command that `key` calls, if it calls one.
    pub fn lookup(&self, key: &str) -> (place: Option<usize>)
        ensures
            place == self@.lookup(key@),
            place matches Some(i) ==> i < self@.entries.len(),
            self@.well_formed(),
    {
        proof {
            use_type_invariant(self);
        }
        match self.index.get(key) {
            Some(i) => Some(*i),
            None => None,
        }
    }

    /// The command that `key` calls, if it calls one.
    pub fn get(&self, key: &str) -> (found: Option<&Command>)
        ensures
            match found {
                Some(cmd) => self@.lookup(key@) matches Some(i) && cmd@ == self@.entries[i as int],
                None => self@.lookup(key@) is None,
            },
    {
        match self.lookup(key) {
            Some(i) => Some(&self.entries[i]),
            None => None,
        }
    }

    /// Adds a command. From now on each of its names calls it.
    pub fn insert(&mut self, cmd: Handler)
        ensures
            final(self)@ == old(self)@.with(cmd),
            old(self)@.well_formed(),
            final(self)@.well_formed(),
    {
        proof {
            use_type_invariant(&*self);
        }
        let names: Vec<String> = cmd.names();
        let ghost before = self@;
        // the registry is taken apart and put together again at the end
        let mut taken: CommandMap = CommandMap::new();
        std::mem::swap(self, &mut taken);
        let CommandMap { mut entries, mut index, names: mut known } = taken;
        let place: usize = entries.len();
        assert(place == before.entries.len());
        entries.push(Command::new(cmd));
        let mut k: usize = 0;
        while k < names.len()
            invariant
                k <= names.len(),
                index@ == named(before.index, texts(names@).take(k as int), place),
                forall|name: Seq<char>| #[trigger]
                    index@.contains_key(name) <==> texts(known@).contains(name),
            decreases names.len() - k,
        {
            proof {
                assert(texts(names@).take(k + 1).drop_last() =~= texts(names@).take(k as int));
            }
            let ghost seen = texts(known@);
            let name: String = names[k].clone();
            let again: String = name.clone();
            index.insert(name, place);
            known.push(again);
            proof {
                let grown = texts(known@);
                assert(grown =~= seen.push(again@));
                assert forall|other: Seq<char>| #[trigger]
                    index@.contains_key(other) <==> grown.contains(other) by {
                    if seen.contains(other) {
                        let i = choose|i: int| 0 <= i < seen.len() && seen[i] == other;
                        assert(grown[i] == other);
                    }
                    if grown.contains(other) && other != again@ {
                        let i = choose|i: int| 0 <= i < grown.len() && grown[i] == other;
                        assert(seen[i] == other);
                    }
                    assert(grown[grown.len() - 1] == again@);
                }
            }
            k = k + 1;
        }
        proof {
            assert(texts(names@).take(k as int) =~= texts(names@));
            let after = before.with(cmd).index;
            assert forall|name: Seq<char>| #[trigger]
                index@.dom().contains(name) == after.dom().contains(name) by {
                lemma_named(before.index, cmd.aliases(), place, name);
            }
            assert(index@.dom() =~= after.dom());
            assert forall|name: Seq<char>| #[trigger]
                index@.dom().contains(name) implies index@[name] == after[name] by {
                lemma_named(before.index, cmd.aliases(), place, name);
            }
            assert(index@ =~= before.with(cmd).index);
        }
        *self = CommandMap { entries, index, names: known };
        assert(self@.entries =~= before.entries.push(cmd));
    }

    /// The command that `key` calls, if it calls one, to change.
    pub fn get_mut(&mut self, key: &str) -> (found: Option<&mut Command>)
        ensures
            match found {
                Some(cmd) => {
                    &&& old(self)@.lookup(key@) matches Some(i)
                    &&& cmd@ == old(self)@.entries[i as int]
                    &&& final(self)@.entries == old(self)@.entries.update(i as int, final(cmd)@)
                    &&& final(self)@.index == old(self)@.index
                },
                None => old(self)@.lookup(key@) is None && final(self)@ == old(self)@,
            },
    {
        proof {
            use_type_invariant(&*self);
        }
        match self.lookup(key) {
            Some(i) => {
                Some(&mut self.entries[i])
            },
            None => None,
        }
    }

    /// The usage line of the command that each name calls, as things stand.
    pub fn usages(&self) -> (lines: StringHashMap<String>)
        ensures
            usage_texts(lines@) == self@.usages(),
    {
        proof {
            use_type_invariant(self);
        }
        let mut lines: StringHashMap<String> = StringHashMap::new();
        let mut k: usize = 0;
        assert(usage_texts(lines@) =~= told(self@, texts(self.names@).take(0)));
        while k < self.names.len()
            invariant
                k <= self.names.len(),
                forall|name: Seq<char>| #[trigger]
                    self.index@.contains_key(name) ==> self.index@[name] < self.entries@.len(),
                forall|name: Seq<char>| #[trigger]
                    self.index@.contains_key(name) <==> texts(self.names@).contains(name),
                usage_texts(lines@) == told(self@, texts(self.names@).take(k as int)),
            decreases self.names.len() - k,
        {
            let name: &String = &self.names[k];
            assert(texts(self.names@)[k as int] == name@);
            match self.index.get(name.as_str()) {
                Some(place) => {
                    let line: String = self.entries[*place].inner.help();
                    let ghost before = lines@;
                    lines.insert(name.clone(), line);
                    proof {
                        let seen = texts(self.names@).take(k as int);
                        let grown = texts(self.names@).take(k + 1);
                        assert(grown =~= seen.push(name@));
                        assert forall|other: Seq<char>| seen.contains(other) implies grown.contains(
                            other,
                        ) by {
                            let i = choose|i: int| 0 <= i < seen.len() && seen[i] == other;
                            assert(grown[i] == other);
                        }
                        assert forall|other: Seq<char>|
                            grown.contains(other) && other != name@ implies seen.contains(other) by {
                            let i = choose|i: int| 0 <= i < grown.len() && grown[i] == other;
                            assert(seen[i] == other);
                        }
                        assert(grown[k as int] == name@);
                        let have = usage_texts(lines@);
                        let want = told(self@, grown);
                        assert(usage_texts(before) == told(self@, seen));
                        assert forall|other: Seq<char>| #[trigger]
                            have.dom().contains(other) == want.dom().contains(other) by {
                            if other != name@ {
                                assert(usage_texts(before).dom().contains(other)
                                    == before.contains_key(other));
                                assert(told(self@, seen).dom().contains(other) == seen.contains(
                                    other,
                                ));
                            }
                        }
                        assert(have.dom() =~= want.dom());
                        assert forall|other: Seq<char>| #[trigger]
                            have.dom().contains(other) implies have[other] == want[other] by {
                            if other != name@ {
                                assert(usage_texts(before).dom().contains(other));
                                assert(have[other] == usage_texts(before)[other]);
                                assert(want[other] == told(self@, seen)[other]);
                            } else {
                                assert(self@.entries[*place as int] == self.entries@[*place as int]@);
                            }
                        }
                        assert(have =~= want);
                    }
                },
                None => {
                    assert(false);
                },
            }
            k = k + 1;
        }
        proof {
            assert(texts(self.names@).take(k as int) =~= texts(self.names@));
            assert(told(self@, texts(self.names@)) =~= self@.usages());
        }
        lines
    }

    /// The number of commands that were registered.
    pub fn len(&self) -> (n: usize)
        ensures
            n == self@.entries.len(),
    {
        self.entries.len()
    }

    /// The limit of the command at `place`.
    pub fn rate_limit_at(&self, place: usize) -> (limit: RateLimit)
        requires
            place < self@.entries.len(),
        ensures
            limit == self@.entries[place as int].limit(),
    {
        self.entries[place].inner.rate_limit()
    }

    /// Tells the command at `place` that its answer has reached the chat.
    pub fn delivered(&mut self, place: usize)
        requires
            place < old(self)@.entries.len(),
        ensures
            old(self)@.entries[place as int].once_delivered(final(self)@.entries[place as int]),
            final(self)@.index == old(self)@.index,
            final(self)@.entries.len() == old(self)@.entries.len(),
            forall|i: int|
                0 <= i < old(self)@.entries.len() && i != place ==> final(self)@.entries[i] == old(
                    self,
                )@.entries[i],
    {
        proof {
            use_type_invariant(&*self);
        }
        self.entries[place].inner.delivered()
    }

    /// Lets the command at `place` handle the message `ctx`.
    pub fn handle(&mut self, place: usize, ctx: &ChatMessage) -> (outcome: Result<Response, String>)
        requires
            place < old(self)@.entries.len(),
        ensures
            old(self)@.entries[place as int].handles(
                ctx@,
                final(self)@.entries[place as int],
                outcome_view(outcome),
            ),
            final(self)@.index == old(self)@.index,
            final(self)@.entries.len() == old(self)@.entries.len(),
            forall|i: int|
                0 <= i < old(self)@.entries.len() && i != place ==> final(self)@.entries[i] == old(
                    self,
                )@.entries[i],
    {
        proof {
            use_type_invariant(&*self);
        }
        self.entries[place].inner.handle(ctx)
    }
}

} // verus!
