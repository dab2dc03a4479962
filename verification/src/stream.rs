//! What the companions of the bot share: the live counters of the stream, and
//! the programs that channel point redeems put on the screen.

use crate::text::chars_of;
use crate::text::same_text;
use crate::text::texts;
use vstd::prelude::*;

verus! {

// Counters -------------------------------------------------------------------
/// How long a chat message is remembered, in seconds.
pub const MESSAGE_MEMORY_SECS: u64 = 1800;

/// How long a follow is shown, in seconds.
pub const FOLLOW_SECS: u64 = 60;

/// How long a raid is shown, in seconds.
pub const RAID_SECS: u64 = 300;

/// The latest of the stream, as the companions read it.
#[derive(Debug, Clone, Copy, PartialEq, Eq, Structural)]
pub struct LatestStreamInfo {
    pub msgs_per_15s: u64,
    pub msgs_per_30s: u64,
    pub msgs_per_60s: u64,
    /// The second of the last raid, while it is shown; else 0.
    pub raid: u64,
    /// The second of the last follow, while it is shown; else 0.
    pub follow: u64,
    /// The number of the last redeem.
    pub redeem: u64,
    pub waters_per_10m: u64,
}

/// The second that lies `n` seconds before `now`, or the first if the stream
/// is not that old.
pub open spec fn seconds_before(now: u64, n: u64) -> u64 {
    if now >= n {
        (now - n) as u64
    } else {
        0
    }
}

/// The number of `times` that lie after the second `n` seconds before `now`.
pub open spec fn recent(times: Seq<u64>, now: u64, n: u64) -> nat
    decreases times.len(),
{
    if times.len() == 0 {
        0
    } else if times.last() > seconds_before(now, n) {
        recent(times.drop_last(), now, n) + 1
    } else {
        recent(times.drop_last(), now, n)
    }
}

/// Those of `times` that are still remembered at `now`, in their order.
pub open spec fn remembered(times: Seq<u64>, now: u64) -> Seq<u64>
    decreases times.len(),
{
    if times.len() == 0 {
        Seq::empty()
    } else if times.last() > seconds_before(now, MESSAGE_MEMORY_SECS) {
        remembered(times.drop_last(), now).push(times.last())
    } else {
        remembered(times.drop_last(), now)
    }
}

/// The number that the redeem `title` is known by, if it is known.
pub open spec fn redeem_number(title: Seq<char>) -> Option<u64> {
    if title == "mostlytrain"@ {
        Some(1u64)
    } else if title == "mostlypride"@ {
        Some(2u64)
    } else if title == "mostlymusic"@ {
        Some(3u64)
    } else if title == "mostlypackets"@ {
        Some(4u64)
    } else {
        None
    }
}

/// The second that lies `n` seconds before `now`.
pub fn before(now: u64, n: u64) -> (second: u64)
    ensures
        second == seconds_before(now, n),
{
    if now >= n {
        now - n
    } else {
        0
    }
}

/// The number of messages of the last `n` seconds, where `tail_msgs` holds
/// the second of each message.
pub fn count_recent(tail_msgs: &Vec<u64>, now: u64, n: u64) -> (count: u64)
    ensures
        count == recent(tail_msgs@, now, n),
{
    let since: u64 = before(now, n);
    let mut count: u64 = 0;
    let mut i: usize = 0;
    assert(tail_msgs@.take(0) =~= Seq::<u64>::empty());
    while i < tail_msgs.len()
        invariant
            i <= tail_msgs.len(),
            since == seconds_before(now, n),
            count == recent(tail_msgs@.take(i as int), now, n),
            count <= i,
        decreases tail_msgs.len() - i,
    {
        proof {
            assert(tail_msgs@.take(i + 1).drop_last() =~= tail_msgs@.take(i as int));
        }
        if tail_msgs[i] > since {
            count = count + 1;
        }
        i = i + 1;
    }
    assert(tail_msgs@.take(i as int) =~= tail_msgs@);
    count
}

/// Forgets the messages that are older than [`MESSAGE_MEMORY_SECS`].
pub fn clean(tail_msgs: &mut Vec<u64>, now: u64)
    ensures
        final(tail_msgs)@ == remembered(old(tail_msgs)@, now),
{
    let since: u64 = before(now, MESSAGE_MEMORY_SECS);
    let mut kept: Vec<u64> = Vec::new();
    let mut i: usize = 0;
    assert(tail_msgs@.take(0) =~= Seq::<u64>::empty());
    while i < tail_msgs.len()
        invariant
            i <= tail_msgs.len(),
            tail_msgs@ == old(tail_msgs)@,
            since == seconds_before(now, MESSAGE_MEMORY_SECS),
            kept@ == remembered(tail_msgs@.take(i as int), now),
        decreases tail_msgs.len() - i,
    {
        proof {
            assert(tail_msgs@.take(i + 1).drop_last() =~= tail_msgs@.take(i as int));
        }
        if tail_msgs[i] > since {
            kept.push(tail_msgs[i]);
        }
        i = i + 1;
    }
    assert(tail_msgs@.take(i as int) =~= tail_msgs@);
    *tail_msgs = kept;
}

impl LatestStreamInfo {
    /// The counters once the messages at `times` are counted at `now` and
    /// what is no longer shown is taken away: a follow after a minute, a raid
    /// after five.
    pub open spec fn refreshed(self, times: Seq<u64>, now: u64) -> LatestStreamInfo {
        LatestStreamInfo {
            msgs_per_15s: recent(times, now, 15) as u64,
            msgs_per_30s: recent(times, now, 30) as u64,
            msgs_per_60s: recent(times, now, 60) as u64,
            follow: if self.follow < seconds_before(now, FOLLOW_SECS) {
                0
            } else {
                self.follow
            },
            raid: if self.raid < seconds_before(now, RAID_SECS) {
                0
            } else {
                self.raid
            },
            ..self
        }
    }

    /// Counts the messages at `tail_msgs` at `now` and takes away what is no
    /// longer shown.
    pub fn refresh(&mut self, tail_msgs: &Vec<u64>, now: u64)
        ensures
            *final(self) == old(self).refreshed(tail_msgs@, now),
    {
        self.msgs_per_15s = count_recent(tail_msgs, now, 15);
        self.msgs_per_30s = count_recent(tail_msgs, now, 30);
        self.msgs_per_60s = count_recent(tail_msgs, now, 60);

        if self.follow < before(now, FOLLOW_SECS) {
            self.follow = 0;
        }
        if self.raid < before(now, RAID_SECS) {
            self.raid = 0;
        }
    }

    /// Notes a follow at `now`.
    pub fn on_follow(&mut self, now: u64)
        ensures
            *final(self) == (LatestStreamInfo { follow: now, ..*old(self) }),
    {
        self.follow = now;
    }

    /// Notes a raid at `now`.
    pub fn on_raid(&mut self, now: u64)
        ensures
            *final(self) == (LatestStreamInfo { raid: now, ..*old(self) }),
    {
        self.raid = now;
    }

    /// Notes the redeem `title`, if it is one that is known by a number.
    pub fn on_redeem(&mut self, title: &str)
        ensures
            *final(self) == match redeem_number(title@) {
                Some(number) => LatestStreamInfo { redeem: number, ..*old(self) },
                None => *old(self),
            },
    {
        if same_text(title, "mostlytrain") {
            self.redeem = 1;
        } else if same_text(title, "mostlypride") {
            self.redeem = 2;
        } else if same_text(title, "mostlymusic") {
            self.redeem = 3;
        } else if same_text(title, "mostlypackets") {
            self.redeem = 4;
        }
    }
}

impl Default for LatestStreamInfo {
    fn default() -> (info: Self)
        ensures
            info == (LatestStreamInfo {
                msgs_per_15s: 0,
                msgs_per_30s: 0,
                msgs_per_60s: 0,
                raid: 0,
                follow: 0,
                redeem: 0,
                waters_per_10m: 0,
            }),
    {
        LatestStreamInfo {
            msgs_per_15s: 0,
            msgs_per_30s: 0,
            msgs_per_60s: 0,
            raid: 0,
            follow: 0,
            redeem: 0,
            waters_per_10m: 0,
        }
    }
}

// Redeems --------------------------------------------------------------------
/// A program to run, with its arguments.
#[derive(Debug, Clone, PartialEq, Eq)]
pub struct CommandLine {
    pub program: String,
    pub args: Vec<String>,
}

/// A program to run, as text: the program first, then its arguments.
pub open spec fn line(program: Seq<char>, args: Seq<Seq<char>>) -> (Seq<char>, Seq<Seq<char>>) {
    (program, args)
}

impl View for CommandLine {
    type V = (Seq<char>, Seq<Seq<char>>);

    open spec fn view(&self) -> (Seq<char>, Seq<Seq<char>>) {
        (self.program@, texts(self.args@))
    }
}

impl CommandLine {
    /// The program `program` without arguments.
    pub fn new(program: &str) -> (command: CommandLine)
        ensures
            command@ == line(program@, Seq::empty()),
    {
        let command = CommandLine { program: program.to_owned(), args: Vec::new() };
        assert(texts(command.args@) =~= Seq::<Seq<char>>::empty());
        command
    }

    /// One more argument.
    pub fn arg(&mut self, arg: &str)
        ensures
            final(self)@ == line(old(self)@.0, old(self)@.1.push(arg@)),
    {
        let ghost before = texts(self.args@);
        self.args.push(arg.to_owned());
        assert(texts(self.args@) =~= before.push(arg@));
    }
}

/// The system monitor on the widget `widget`.
pub open spec fn monitor(widget: Seq<char>) -> (Seq<char>, Seq<Seq<char>>) {
    line("btm"@, seq!["-e"@, "--default_widget_type"@, widget])
}

/// The system monitor on the widget `widget`.
pub fn monitor_command(widget: &str) -> (command: CommandLine)
    ensures
        command@ == monitor(widget@),
{
    let mut c = CommandLine::new("btm");
    c.arg("-e");
    c.arg("--default_widget_type");
    c.arg(widget);
    assert(c@.1 =~= monitor(widget@).1);
    c
}

/// The program that the redeem of the number `number` puts on the screen.
pub open spec fn program_of(number: u64) -> (Seq<char>, Seq<Seq<char>>) {
    if number == 1 {
        line("sl-loop"@, Seq::empty())
    } else if number == 2 {
        line("hyfetch"@, seq!["--june"@])
    } else if number == 4 {
        monitor("net"@)
    } else if number == 5 {
        monitor("cpu"@)
    } else {
        line("cava"@, Seq::empty())
    }
}

/// The program that the redeem of the number `number` puts on the screen; the
/// music visualizer for a number that is not known.
pub fn redeem_command(number: u64) -> (command: CommandLine)
    ensures
        command@ == program_of(number),
{
    match number {
        1 => CommandLine::new("sl-loop"),
        2 => {
            let mut c = CommandLine::new("hyfetch");
            c.arg("--june");
            assert(c@.1 =~= seq!["--june"@]);
            c
        },
        3 => CommandLine::new("cava"),
        4 => monitor_command("net"),
        5 => monitor_command("cpu"),
        _ => CommandLine::new("cava"),
    }
}

/// Whether the program on the screen has to give way to `wanted`: it has,
/// unless it is the same program.
pub fn gives_way(running: &CommandLine, wanted: &CommandLine) -> (yes: bool)
    ensures
        yes == (running@.0 != wanted@.0),
{
    !same_text(running.program.as_str(), wanted.program.as_str())
}

/// A channel point redeem that puts a program on the screen.
#[derive(Debug, Clone, Copy, PartialEq, Eq, Structural)]
pub enum CommandRedeem {
    MostlyTrain,
    MostlyPackets,
    MostlyPride,
    MostlyCPU,
    MostlyMusic,
    MostlyWater,
    MostlyStretch,
    MostlyKeyboard,
    MostlyStfu,
    MostlyMario,
    MostlyNeo,
    MostlyRedpill,
}

/// Whether `title` is the name that is written `lower` in small letters and
/// `upper` in capitals, in whatever mix of the two.
pub open spec fn spells(title: Seq<char>, lower: Seq<char>, upper: Seq<char>) -> bool {
    &&& title.len() == lower.len()
    &&& title.len() == upper.len()
    &&& forall|i: int| 0 <= i < title.len() ==> title[i] == lower[i] || title[i] == upper[i]
}

/// Whether `title` is the name that is written `lower` in small letters and
/// `upper` in capitals, in whatever mix of the two.
pub fn is_spelling(title: &Vec<char>, lower: &str, upper: &str) -> (yes: bool)
    ensures
        yes == spells(title@, lower@, upper@),
{
    let small: Vec<char> = chars_of(lower);
    let large: Vec<char> = chars_of(upper);
    if title.len() != small.len() || title.len() != large.len() {
        return false;
    }
    let mut i: usize = 0;
    while i < title.len()
        invariant
            i <= title.len(),
            small@ == lower@,
            large@ == upper@,
            title.len() == small.len(),
            title.len() == large.len(),
            forall|k: int| 0 <= k < i ==> title@[k] == small@[k] || title@[k] == large@[k],
        decreases title.len() - i,
    {
        if title[i] != small[i] && title[i] != large[i] {
            return false;
        }
        i = i + 1;
    }
    true
}

impl CommandRedeem {
    /// The redeem that `title` names, if it names one. Capitals and small
    /// letters count the same.
    pub open spec fn named(title: Seq<char>) -> Option<CommandRedeem> {
        if spells(title, "mostlytrain"@, "MOSTLYTRAIN"@) {
            Some(CommandRedeem::MostlyTrain)
        } else if spells(title, "mostlypackets"@, "MOSTLYPACKETS"@) {
            Some(CommandRedeem::MostlyPackets)
        } else if spells(title, "mostlypride"@, "MOSTLYPRIDE"@) {
            Some(CommandRedeem::MostlyPride)
        } else if spells(title, "mostlycpu"@, "MOSTLYCPU"@) {
            Some(CommandRedeem::MostlyCPU)
        } else if spells(title, "mostlymusic"@, "MOSTLYMUSIC"@) {
            Some(CommandRedeem::MostlyMusic)
        } else if spells(title, "mostlywater"@, "MOSTLYWATER"@) {
            Some(CommandRedeem::MostlyWater)
        } else if spells(title, "mostlystretch"@, "MOSTLYSTRETCH"@) {
            Some(CommandRedeem::MostlyStretch)
        } else if spells(title, "mostlykeyboard"@, "MOSTLYKEYBOARD"@) {
            Some(CommandRedeem::MostlyKeyboard)
        } else if spells(title, "mostlystfu"@, "MOSTLYSTFU"@) {
            Some(CommandRedeem::MostlyStfu)
        } else if spells(title, "mostlymario"@, "MOSTLYMARIO"@) {
            Some(CommandRedeem::MostlyMario)
        } else if spells(title, "mostlyneo"@, "MOSTLYNEO"@) {
            Some(CommandRedeem::MostlyNeo)
        } else if spells(title, "mostlyredpill"@, "MOSTLYREDPILL"@) {
            Some(CommandRedeem::MostlyRedpill)
        } else {
            None
        }
    }

    /// The program that the redeem puts on the screen.
    pub open spec fn program(self) -> (Seq<char>, Seq<Seq<char>>) {
        match self {
            CommandRedeem::MostlyTrain => line("sl-loop"@, Seq::empty()),
            CommandRedeem::MostlyCPU => monitor("cpu"@),
            CommandRedeem::MostlyPackets => monitor("net"@),
            CommandRedeem::MostlyPride => line("hyfetch"@, seq!["--june"@]),
            CommandRedeem::MostlyMusic => line("cava"@, Seq::empty()),
            CommandRedeem::MostlyWater => line("asciifish"@, Seq::empty()),
            CommandRedeem::MostlyStretch => line("cbonsai"@, seq!["-li"@]),
            CommandRedeem::MostlyStfu => line("cbonsai"@, seq!["-li"@]),
            CommandRedeem::MostlyKeyboard => line("genact"@, Seq::empty()),
            CommandRedeem::MostlyMario => line("pipes.sh"@, Seq::empty()),
            CommandRedeem::MostlyNeo => line("cmatrix"@, Seq::empty()),
            CommandRedeem::MostlyRedpill => line("cmatrix"@, Seq::empty()),
        }
    }

    /// The redeem that `title` names, if it names one. Capitals and small
    /// letters count the same.
    pub fn from_title(title: &str) -> (redeem: Option<CommandRedeem>)
        ensures
            redeem == CommandRedeem::named(title@),
    {
        let t: Vec<char> = chars_of(title);
        if is_spelling(&t, "mostlytrain", "MOSTLYTRAIN") {
            Some(CommandRedeem::MostlyTrain)
        } else if is_spelling(&t, "mostlypackets", "MOSTLYPACKETS") {
            Some(CommandRedeem::MostlyPackets)
        } else if is_spelling(&t, "mostlypride", "MOSTLYPRIDE") {
            Some(CommandRedeem::MostlyPride)
        } else if is_spelling(&t, "mostlycpu", "MOSTLYCPU") {
            Some(CommandRedeem::MostlyCPU)
        } else if is_spelling(&t, "mostlymusic", "MOSTLYMUSIC") {
            Some(CommandRedeem::MostlyMusic)
        } else if is_spelling(&t, "mostlywater", "MOSTLYWATER") {
            Some(CommandRedeem::MostlyWater)
        } else if is_spelling(&t, "mostlystretch", "MOSTLYSTRETCH") {
            Some(CommandRedeem::MostlyStretch)
        } else if is_spelling(&t, "mostlykeyboard", "MOSTLYKEYBOARD") {
            Some(CommandRedeem::MostlyKeyboard)
        } else if is_spelling(&t, "mostlystfu", "MOSTLYSTFU") {
            Some(CommandRedeem::MostlyStfu)
        } else if is_spelling(&t, "mostlymario", "MOSTLYMARIO") {
            Some(CommandRedeem::MostlyMario)
        } else if is_spelling(&t, "mostlyneo", "MOSTLYNEO") {
            Some(CommandRedeem::MostlyNeo)
        } else if is_spelling(&t, "mostlyredpill", "MOSTLYREDPILL") {
            Some(CommandRedeem::MostlyRedpill)
        } else {
            None
        }
    }

    /// The program that the redeem puts on the screen.
    pub fn command_line(self) -> (command: CommandLine)
        ensures
            command@ == self.program(),
    {
        match self {
            CommandRedeem::MostlyTrain => CommandLine::new("sl-loop"),
            CommandRedeem::MostlyCPU => monitor_command("cpu"),
            CommandRedeem::MostlyPackets => monitor_command("net"),
            CommandRedeem::MostlyPride => {
                let mut c = CommandLine::new("hyfetch");
                c.arg("--june");
                assert(c@.1 =~= seq!["--june"@]);
                c
            },
            CommandRedeem::MostlyMusic => CommandLine::new("cava"),
            CommandRedeem::MostlyWater => CommandLine::new("asciifish"),
            CommandRedeem::MostlyStretch => {
                let mut c = CommandLine::new("cbonsai");
                c.arg("-li");
                assert(c@.1 =~= seq!["-li"@]);
                c
            },
            CommandRedeem::MostlyStfu => {
                let mut c = CommandLine::new("cbonsai");
                c.arg("-li");
                assert(c@.1 =~= seq!["-li"@]);
                c
            },
            CommandRedeem::MostlyKeyboard => CommandLine::new("genact"),
            CommandRedeem::MostlyMario => CommandLine::new("pipes.sh"),
            CommandRedeem::MostlyNeo => CommandLine::new("cmatrix"),
            CommandRedeem::MostlyRedpill => CommandLine::new("cmatrix"),
        }
    }
}

} // verus!
