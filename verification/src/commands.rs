//! The commands of the bot.
//!
//! A command is a value with a name (or several), a usage line, a rate limit
//! of its own and a handler. The handler reads a chat message and says what
//! the bot is to answer; it never sends anything itself.

pub mod ban;
pub mod bot_time;
pub mod commands;
pub mod count;
pub mod discord;
pub mod git;
pub mod help;
pub mod js;
pub mod kofi;
pub mod lurk;
pub mod mostlybot;
pub mod mostlypasta;
pub mod ping;
pub mod pong;
pub mod progress;
pub mod rewrite;
pub mod status;
pub mod tictactoe;
pub mod uwu;
pub mod vods;
pub mod youtube;

use crate::commands::ban::MostlyBan;
use crate::commands::bot_time::BotTime;
use crate::commands::commands::MostlyCommands;
use crate::commands::count::Count;
use crate::commands::discord::MostlyDiscord;
use crate::commands::git::MostlyGit;
use crate::commands::help::MostlyHelp;
use crate::commands::js::MostlyJs;
use crate::commands::kofi::MostlyKofi;
use crate::commands::lurk::Lurk;
use crate::commands::mostlybot::MostlyBot;
use crate::commands::mostlypasta::MostlyPasta;
use crate::commands::ping::MostlyPing;
use crate::commands::pong::MostlyPong;
use crate::commands::progress::Progress;
use crate::commands::rewrite::MostlyRewrite;
use crate::commands::status::MostlyStatus;
use crate::commands::tictactoe::TicTacToe;
use crate::commands::uwu::MostlyUwU;
use crate::commands::vods::MostlyVods;
use crate::commands::youtube::MostlyYoutube;
use crate::command::called_by;
use crate::command::CommandMap;
use crate::command::RegistryView;
use crate::message::outcome_view;
use crate::message::ChatMessage;
use crate::message::MessageView;
use crate::message::Response;
use crate::message::ResponseView;
use crate::spam::RateLimit;
use crate::text::texts;
use crate::time::duration_from;
use vstd::prelude::*;

verus! {

/// The pause between two invocations of a command that names no limit of its
/// own, in milliseconds.
pub const DEFAULT_CMD_COOLDOWN_MS: u64 = 250;

/// The limit of a command that names none of its own: one invocation every
/// [`DEFAULT_CMD_COOLDOWN_MS`] milliseconds.
pub open spec fn default_limit() -> RateLimit {
    RateLimit::of(1, 250_000_000)
}

/// The limit of a command that names none of its own.
pub fn default_rate_limit() -> (limit: RateLimit)
    ensures
        limit == default_limit(),
        limit.attempts() == 1,
        limit.span() == DEFAULT_CMD_COOLDOWN_MS * 1_000_000,
{
    RateLimit::new(1, duration_from(0, 250_000_000))
}

/// What every command can do.
pub trait ChatCommand: Sized {
    /// The names the command is called by, without the prefix.
    spec fn aliases() -> Seq<Seq<char>>;

    /// The usage line of the command.
    spec fn usage(&self) -> Seq<char>;

    /// The limit on invocations of the command, over all users.
    spec fn limit(&self) -> RateLimit;

    /// Whether the command, given the message `ctx`, may end up as `after`
    /// with the outcome `outcome`.
    spec fn handles(
        &self,
        ctx: MessageView,
        after: Self,
        outcome: Result<ResponseView, Seq<char>>,
    ) -> bool;

    /// The command in its first state.
    fn new() -> Self;

    /// The names the command is called by, without the prefix.
    fn names() -> (names: Vec<String>)
        ensures
            texts(names@) == Self::aliases(),
    ;

    /// The limit on invocations of the command, over all users.
    fn rate_limit(&self) -> (limit: RateLimit)
        ensures
            limit == self.limit(),
    ;

    /// Reads the message `ctx`, which called the command, and says what to
    /// answer, or why the command failed.
    fn handle(&mut self, ctx: &ChatMessage) -> (outcome: Result<Response, String>)
        ensures
            old(self).handles(ctx@, *final(self), outcome_view(outcome)),
    ;

    /// The usage line of the command.
    fn help(&self) -> (usage: String)
        ensures
            usage@ == self.usage(),
    ;
}

/// The one name `name`, as a list.
pub fn one_name(name: &str) -> (names: Vec<String>)
    ensures
        texts(names@) == seq![name@],
{
    let mut names: Vec<String> = Vec::new();
    names.push(name.to_owned());
    assert(texts(names@) =~= seq![name@]);
    names
}

/// The two names `first` and `second`, as a list.
pub fn two_names(first: &str, second: &str) -> (names: Vec<String>)
    ensures
        texts(names@) == seq![first@, second@],
{
    let mut names: Vec<String> = Vec::new();
    names.push(first.to_owned());
    names.push(second.to_owned());
    assert(texts(names@) =~= seq![first@, second@]);
    names
}

/// Any one of the bot's commands.
pub enum Handler {
    Ban(MostlyBan),
    BotTime(BotTime),
    Commands(MostlyCommands),
    Count(Count),
    Discord(MostlyDiscord),
    Git(MostlyGit),
    Help(MostlyHelp),
    Js(MostlyJs),
    Kofi(MostlyKofi),
    Lurk(Lurk),
    Bot(MostlyBot),
    Pasta(MostlyPasta),
    Ping(MostlyPing),
    Pong(MostlyPong),
    Progress(Progress),
    Rewrite(MostlyRewrite),
    Status(MostlyStatus),
    TicTacToe(TicTacToe),
    UwU(MostlyUwU),
    Vods(MostlyVods),
    Youtube(MostlyYoutube),
}

impl Handler {
    /// The names the command is called by, without the prefix.
    pub open spec fn aliases(&self) -> Seq<Seq<char>> {
        match self {
            Handler::Ban(_) => MostlyBan::aliases(),
            Handler::BotTime(_) => BotTime::aliases(),
            Handler::Commands(_) => MostlyCommands::aliases(),
            Handler::Count(_) => Count::aliases(),
            Handler::Discord(_) => MostlyDiscord::aliases(),
            Handler::Git(_) => MostlyGit::aliases(),
            Handler::Help(_) => MostlyHelp::aliases(),
            Handler::Js(_) => MostlyJs::aliases(),
            Handler::Kofi(_) => MostlyKofi::aliases(),
            Handler::Lurk(_) => Lurk::aliases(),
            Handler::Bot(_) => MostlyBot::aliases(),
            Handler::Pasta(_) => MostlyPasta::aliases(),
            Handler::Ping(_) => MostlyPing::aliases(),
            Handler::Pong(_) => MostlyPong::aliases(),
            Handler::Progress(_) => Progress::aliases(),
            Handler::Rewrite(_) => MostlyRewrite::aliases(),
            Handler::Status(_) => MostlyStatus::aliases(),
            Handler::TicTacToe(_) => TicTacToe::aliases(),
            Handler::UwU(_) => MostlyUwU::aliases(),
            Handler::Vods(_) => MostlyVods::aliases(),
            Handler::Youtube(_) => MostlyYoutube::aliases(),
        }
    }

    /// The usage line of the command.
    pub open spec fn usage(&self) -> Seq<char> {
        match self {
            Handler::Ban(c) => c.usage(),
            Handler::BotTime(c) => c.usage(),
            Handler::Commands(c) => c.usage(),
            Handler::Count(c) => c.usage(),
            Handler::Discord(c) => c.usage(),
            Handler::Git(c) => c.usage(),
            Handler::Help(c) => c.usage(),
            Handler::Js(c) => c.usage(),
            Handler::Kofi(c) => c.usage(),
            Handler::Lurk(c) => c.usage(),
            Handler::Bot(c) => c.usage(),
            Handler::Pasta(c) => c.usage(),
            Handler::Ping(c) => c.usage(),
            Handler::Pong(c) => c.usage(),
            Handler::Progress(c) => c.usage(),
            Handler::Rewrite(c) => c.usage(),
            Handler::Status(c) => c.usage(),
            Handler::TicTacToe(c) => c.usage(),
            Handler::UwU(c) => c.usage(),
            Handler::Vods(c) => c.usage(),
            Handler::Youtube(c) => c.usage(),
        }
    }

    /// The limit on invocations of the command, over all users.
    pub open spec fn limit(&self) -> RateLimit {
        match self {
            Handler::Ban(c) => c.limit(),
            Handler::BotTime(c) => c.limit(),
            Handler::Commands(c) => c.limit(),
            Handler::Count(c) => c.limit(),
            Handler::Discord(c) => c.limit(),
            Handler::Git(c) => c.limit(),
            Handler::Help(c) => c.limit(),
            Handler::Js(c) => c.limit(),
            Handler::Kofi(c) => c.limit(),
            Handler::Lurk(c) => c.limit(),
            Handler::Bot(c) => c.limit(),
            Handler::Pasta(c) => c.limit(),
            Handler::Ping(c) => c.limit(),
            Handler::Pong(c) => c.limit(),
            Handler::Progress(c) => c.limit(),
            Handler::Rewrite(c) => c.limit(),
            Handler::Status(c) => c.limit(),
            Handler::TicTacToe(c) => c.limit(),
            Handler::UwU(c) => c.limit(),
            Handler::Vods(c) => c.limit(),
            Handler::Youtube(c) => c.limit(),
        }
    }

    /// Whether the command, given the message `ctx`, may end up as `after`
    /// with the outcome `outcome`.
    pub open spec fn handles(
        &self,
        ctx: MessageView,
        after: Handler,
        outcome: Result<ResponseView, Seq<char>>,
    ) -> bool {
        match (*self, after) {
            (Handler::Ban(c), Handler::Ban(d)) => c.handles(ctx, d, outcome),
            (Handler::BotTime(c), Handler::BotTime(d)) => c.handles(ctx, d, outcome),
            (Handler::Commands(c), Handler::Commands(d)) => c.handles(ctx, d, outcome),
            (Handler::Count(c), Handler::Count(d)) => c.handles(ctx, d, outcome),
            (Handler::Discord(c), Handler::Discord(d)) => c.handles(ctx, d, outcome),
            (Handler::Git(c), Handler::Git(d)) => c.handles(ctx, d, outcome),
            (Handler::Help(c), Handler::Help(d)) => c.handles(ctx, d, outcome),
            (Handler::Js(c), Handler::Js(d)) => c.handles(ctx, d, outcome),
            (Handler::Kofi(c), Handler::Kofi(d)) => c.handles(ctx, d, outcome),
            (Handler::Lurk(c), Handler::Lurk(d)) => c.handles(ctx, d, outcome),
            (Handler::Bot(c), Handler::Bot(d)) => c.handles(ctx, d, outcome),
            (Handler::Pasta(c), Handler::Pasta(d)) => c.handles(ctx, d, outcome),
            (Handler::Ping(c), Handler::Ping(d)) => c.handles(ctx, d, outcome),
            (Handler::Pong(c), Handler::Pong(d)) => c.handles(ctx, d, outcome),
            (Handler::Progress(c), Handler::Progress(d)) => c.handles(ctx, d, outcome),
            (Handler::Rewrite(c), Handler::Rewrite(d)) => c.handles(ctx, d, outcome),
            (Handler::Status(c), Handler::Status(d)) => c.handles(ctx, d, outcome),
            (Handler::TicTacToe(c), Handler::TicTacToe(d)) => c.handles(ctx, d, outcome),
            (Handler::UwU(c), Handler::UwU(d)) => c.handles(ctx, d, outcome),
            (Handler::Vods(c), Handler::Vods(d)) => c.handles(ctx, d, outcome),
            (Handler::Youtube(c), Handler::Youtube(d)) => c.handles(ctx, d, outcome),
            _ => false,
        }
    }

    /// The command once its answer has reached the chat.
    pub open spec fn once_delivered(&self, after: Handler) -> bool {
        match (*self, after) {
            (Handler::Count(c), Handler::Count(d)) => d.count() == Count::counted_up(c.count()),
            _ => after == *self,
        }
    }

    /// The names the command is called by, without the prefix.
    pub fn names(&self) -> (names: Vec<String>)
        ensures
            texts(names@) == self.aliases(),
    {
        match self {
            Handler::Ban(_) => MostlyBan::names(),
            Handler::BotTime(_) => BotTime::names(),
            Handler::Commands(_) => MostlyCommands::names(),
            Handler::Count(_) => Count::names(),
            Handler::Discord(_) => MostlyDiscord::names(),
            Handler::Git(_) => MostlyGit::names(),
            Handler::Help(_) => MostlyHelp::names(),
            Handler::Js(_) => MostlyJs::names(),
            Handler::Kofi(_) => MostlyKofi::names(),
            Handler::Lurk(_) => Lurk::names(),
            Handler::Bot(_) => MostlyBot::names(),
            Handler::Pasta(_) => MostlyPasta::names(),
            Handler::Ping(_) => MostlyPing::names(),
            Handler::Pong(_) => MostlyPong::names(),
            Handler::Progress(_) => Progress::names(),
            Handler::Rewrite(_) => MostlyRewrite::names(),
            Handler::Status(_) => MostlyStatus::names(),
            Handler::TicTacToe(_) => TicTacToe::names(),
            Handler::UwU(_) => MostlyUwU::names(),
            Handler::Vods(_) => MostlyVods::names(),
            Handler::Youtube(_) => MostlyYoutube::names(),
        }
    }

    /// The limit on invocations of the command, over all users.
    pub fn rate_limit(&self) -> (limit: RateLimit)
        ensures
            limit == self.limit(),
    {
        match self {
            Handler::Ban(c) => c.rate_limit(),
            Handler::BotTime(c) => c.rate_limit(),
            Handler::Commands(c) => c.rate_limit(),
            Handler::Count(c) => c.rate_limit(),
            Handler::Discord(c) => c.rate_limit(),
            Handler::Git(c) => c.rate_limit(),
            Handler::Help(c) => c.rate_limit(),
            Handler::Js(c) => c.rate_limit(),
            Handler::Kofi(c) => c.rate_limit(),
            Handler::Lurk(c) => c.rate_limit(),
            Handler::Bot(c) => c.rate_limit(),
            Handler::Pasta(c) => c.rate_limit(),
            Handler::Ping(c) => c.rate_limit(),
            Handler::Pong(c) => c.rate_limit(),
            Handler::Progress(c) => c.rate_limit(),
            Handler::Rewrite(c) => c.rate_limit(),
            Handler::Status(c) => c.rate_limit(),
            Handler::TicTacToe(c) => c.rate_limit(),
            Handler::UwU(c) => c.rate_limit(),
            Handler::Vods(c) => c.rate_limit(),
            Handler::Youtube(c) => c.rate_limit(),
        }
    }

    /// The usage line of the command.
    pub fn help(&self) -> (usage: String)
        ensures
            usage@ == self.usage(),
    {
        match self {
            Handler::Ban(c) => c.help(),
            Handler::BotTime(c) => c.help(),
            Handler::Commands(c) => c.help(),
            Handler::Count(c) => c.help(),
            Handler::Discord(c) => c.help(),
            Handler::Git(c) => c.help(),
            Handler::Help(c) => c.help(),
            Handler::Js(c) => c.help(),
            Handler::Kofi(c) => c.help(),
            Handler::Lurk(c) => c.help(),
            Handler::Bot(c) => c.help(),
            Handler::Pasta(c) => c.help(),
            Handler::Ping(c) => c.help(),
            Handler::Pong(c) => c.help(),
            Handler::Progress(c) => c.help(),
            Handler::Rewrite(c) => c.help(),
            Handler::Status(c) => c.help(),
            Handler::TicTacToe(c) => c.help(),
            Handler::UwU(c) => c.help(),
            Handler::Vods(c) => c.help(),
            Handler::Youtube(c) => c.help(),
        }
    }

    /// Reads the message `ctx`, which called the command, and says what to
    /// answer, or why the command failed.
    pub fn handle(&mut self, ctx: &ChatMessage) -> (outcome: Result<Response, String>)
        ensures
            old(self).handles(ctx@, *final(self), outcome_view(outcome)),
    {
        match self {
            Handler::Ban(c) => c.handle(ctx),
            Handler::BotTime(c) => c.handle(ctx),
            Handler::Commands(c) => c.handle(ctx),
            Handler::Count(c) => c.handle(ctx),
            Handler::Discord(c) => c.handle(ctx),
            Handler::Git(c) => c.handle(ctx),
            Handler::Help(c) => c.handle(ctx),
            Handler::Js(c) => c.handle(ctx),
            Handler::Kofi(c) => c.handle(ctx),
            Handler::Lurk(c) => c.handle(ctx),
            Handler::Bot(c) => c.handle(ctx),
            Handler::Pasta(c) => c.handle(ctx),
            Handler::Ping(c) => c.handle(ctx),
            Handler::Pong(c) => c.handle(ctx),
            Handler::Progress(c) => c.handle(ctx),
            Handler::Rewrite(c) => c.handle(ctx),
            Handler::Status(c) => c.handle(ctx),
            Handler::TicTacToe(c) => c.handle(ctx),
            Handler::UwU(c) => c.handle(ctx),
            Handler::Vods(c) => c.handle(ctx),
            Handler::Youtube(c) => c.handle(ctx),
        }
    }

    /// Tells the command that its answer has reached the chat.
    pub fn delivered(&mut self)
        ensures
            old(self).once_delivered(*final(self)),
    {
        match self {
            Handler::Count(c) => c.delivered(),
            _ => {},
        }
    }
}

/// The names of the bot's commands, command by command, in the order in which
/// [`init`] registers them.
pub open spec fn initial_aliases() -> Seq<Seq<Seq<char>>> {
    seq![
        MostlyPasta::aliases(),
        MostlyPing::aliases(),
        MostlyPong::aliases(),
        MostlyBan::aliases(),
        MostlyCommands::aliases(),
        MostlyBot::aliases(),
        Count::aliases(),
        MostlyKofi::aliases(),
        Progress::aliases(),
        MostlyYoutube::aliases(),
        MostlyGit::aliases(),
        MostlyDiscord::aliases(),
        MostlyVods::aliases(),
        Lurk::aliases(),
        BotTime::aliases(),
        MostlyUwU::aliases(),
        MostlyRewrite::aliases(),
        MostlyStatus::aliases(),
        TicTacToe::aliases(),
        MostlyJs::aliases(),
        MostlyHelp::aliases(),
    ]
}

/// The index of a registry in which the first `k` of `aliases` were
/// registered, one command after the other.
pub open spec fn index_of(aliases: Seq<Seq<Seq<char>>>, k: int) -> Map<Seq<char>, usize>
    decreases k,
{
    if k <= 0 {
        Map::empty()
    } else {
        called_by(index_of(aliases, k - 1), aliases[k - 1], (k - 1) as usize)
    }
}

/// The registry of the bot: every command in its first state, and the help
/// command last, which is shown all the others.
pub fn init() -> (map: CommandMap)
    ensures
        map@.entries.len() == initial_aliases().len(),
        forall|k: int|
            0 <= k < map@.entries.len() ==> (#[trigger] map@.entries[k]).aliases()
                == initial_aliases()[k],
        map@.index == index_of(initial_aliases(), initial_aliases().len() as int),
        map@.entries.last() matches Handler::Help(help) && help.known() == (RegistryView {
            entries: map@.entries.drop_last(),
            index: index_of(initial_aliases(), initial_aliases().len() - 1),
        }).usages(),
{
    let mut map: CommandMap = CommandMap::new();
    // most commands will just be inserted
    map.insert(Handler::Pasta(MostlyPasta::new()));
    map.insert(Handler::Ping(MostlyPing::new()));
    map.insert(Handler::Pong(MostlyPong::new()));
    map.insert(Handler::Ban(MostlyBan::new()));
    map.insert(Handler::Commands(MostlyCommands::new()));
    map.insert(Handler::Bot(MostlyBot::new()));
    map.insert(Handler::Count(Count::new()));
    map.insert(Handler::Kofi(MostlyKofi::new()));
    map.insert(Handler::Progress(Progress::new()));
    map.insert(Handler::Youtube(MostlyYoutube::new()));
    map.insert(Handler::Git(MostlyGit::new()));
    map.insert(Handler::Discord(MostlyDiscord::new()));
    map.insert(Handler::Vods(MostlyVods::new()));
    map.insert(Handler::Lurk(Lurk::new()));
    map.insert(Handler::BotTime(BotTime::new()));
    map.insert(Handler::UwU(MostlyUwU::new()));
    map.insert(Handler::Rewrite(MostlyRewrite::new()));
    map.insert(Handler::Status(MostlyStatus::new()));
    map.insert(Handler::TicTacToe(TicTacToe::new()));
    map.insert(Handler::Js(MostlyJs::new()));

    // help is special
    let mut help: MostlyHelp = MostlyHelp::new();
    help.init(&map);
    let ghost others = map@;
    map.insert(Handler::Help(help));
    proof {
        reveal_with_fuel(index_of, 22);
        assert(map@.entries.drop_last() =~= others.entries);
    }
    map
}

} // verus!
