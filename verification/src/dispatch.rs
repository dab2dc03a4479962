//! What becomes of a chat message: the checks it passes, in their fixed order,
//! and what the bot owes its sender in the end.
//!
//! Nothing here sends anything. A message that a command has handled comes
//! back with the command's answer; the caller sends it and reports how that
//! went, and is then told whether the sender is owed a notice.

use crate::command::Command;
use crate::command::CommandMap;
use crate::command::RegistryView;
use crate::message::answer_to;
use crate::message::ChatMessage;
use crate::message::MessageView;
use crate::message::Reply;
use crate::message::ReplyView;
use crate::message::Response;
use crate::message::ResponseView;
use crate::parse::parsed;
use crate::parse::CommandParseResult;
use crate::parse::ParsedCommand;
use crate::spam::RateLimit;
use crate::spam::Spam;
use crate::spam::SpamView;
use crate::text::decimal;
use crate::text::same_text;
use crate::text::to_decimal;
use vstd::prelude::*;
use vstd::string::StringExecFns;

verus! {

// Errors ---------------------------------------------------------------------
/// Why a message that looked like a command came to nothing.
#[derive(Debug, Clone, PartialEq, Eq)]
pub enum ChatErrorKind {
    /// The message begins like a command but names none.
    InvalidCommand,
    /// The sender sends commands too quickly.
    SpamDetected,
    /// The named command was called too quickly; it is free again after the
    /// given number of nanoseconds.
    CommandCooldown(String, u128),
    /// No command goes by the given name.
    CommandDoesNotExist(String),
    /// The named command failed, for the given reason.
    HandlerError(String, String),
    /// The named command broke off.
    HandlerPanic(String),
}

/// Why a message that looked like a command came to nothing, as text.
pub enum ChatError {
    InvalidCommand,
    SpamDetected,
    CommandCooldown(Seq<char>, u128),
    CommandDoesNotExist(Seq<char>),
    HandlerError(Seq<char>, Seq<char>),
    HandlerPanic(Seq<char>),
}

impl View for ChatErrorKind {
    type V = ChatError;

    open spec fn view(&self) -> ChatError {
        match self {
            ChatErrorKind::InvalidCommand => ChatError::InvalidCommand,
            ChatErrorKind::SpamDetected => ChatError::SpamDetected,
            ChatErrorKind::CommandCooldown(name, left) => ChatError::CommandCooldown(name@, *left),
            ChatErrorKind::CommandDoesNotExist(name) => ChatError::CommandDoesNotExist(name@),
            ChatErrorKind::HandlerError(name, why) => ChatError::HandlerError(name@, why@),
            ChatErrorKind::HandlerPanic(name) => ChatError::HandlerPanic(name@),
        }
    }
}

/// A tenth of a second in nanoseconds.
pub const NANOS_PER_TENTH: u128 = 100_000_000;

/// `nanos` nanoseconds in tenths of a second, rounded to the nearest tenth
/// and upwards from the middle.
pub open spec fn tenths_of_seconds(nanos: u128) -> nat {
    if nanos % NANOS_PER_TENTH >= NANOS_PER_TENTH / 2 {
        (nanos / NANOS_PER_TENTH + 1) as nat
    } else {
        (nanos / NANOS_PER_TENTH) as nat
    }
}

/// `nanos` nanoseconds written in seconds with one decimal.
pub open spec fn seconds_text(nanos: u128) -> Seq<char> {
    decimal(tenths_of_seconds(nanos) / 10) + "."@ + decimal(tenths_of_seconds(nanos) % 10)
}

/// What the bot tells the sender of `ctx` about `error`.
pub open spec fn notice_text(error: ChatError, ctx: MessageView) -> Seq<char> {
    match error {
        ChatError::InvalidCommand => "\""@ + ctx.text + "\", invalid command format"@,
        ChatError::SpamDetected => "\""@ + ctx.text
            + "\", you are sending commands too quickly"@,
        ChatError::CommandCooldown(name, left) => "\""@ + name + "\" is on cooldown, wait "@
            + seconds_text(left) + " seconds"@,
        ChatError::CommandDoesNotExist(name) => "\""@ + name + "\" does not exist"@,
        ChatError::HandlerError(name, why) => "\""@ + name + "\" command handle error: "@ + why,
        ChatError::HandlerPanic(name) => "\""@ + name + "\" command panicked"@,
    }
}

/// Writes `nanos` nanoseconds in seconds with one decimal.
pub fn write_seconds(nanos: u128) -> (text: String)
    ensures
        text@ == seconds_text(nanos),
{
    let whole: u128 = nanos / NANOS_PER_TENTH;
    let tenths: u128 = if nanos % NANOS_PER_TENTH >= NANOS_PER_TENTH / 2 {
        whole + 1
    } else {
        whole
    };
    let mut text: String = to_decimal(tenths / 10);
    text.append(".");
    text.append(to_decimal(tenths % 10).as_str());
    text
}

/// Writes what the bot tells the sender of `ctx` about `error`.
pub fn write_notice(error: &ChatErrorKind, ctx: &ChatMessage) -> (text: String)
    ensures
        text@ == notice_text(error@, ctx@),
{
    let mut text: String = String::from_str("\"");
    match error {
        ChatErrorKind::InvalidCommand => {
            text.append(ctx.text.as_str());
            text.append("\", invalid command format");
        },
        ChatErrorKind::SpamDetected => {
            text.append(ctx.text.as_str());
            text.append("\", you are sending commands too quickly");
        },
        ChatErrorKind::CommandCooldown(name, left) => {
            text.append(name.as_str());
            text.append("\" is on cooldown, wait ");
            text.append(write_seconds(*left).as_str());
            text.append(" seconds");
        },
        ChatErrorKind::CommandDoesNotExist(name) => {
            text.append(name.as_str());
            text.append("\" does not exist");
        },
        ChatErrorKind::HandlerError(name, why) => {
            text.append(name.as_str());
            text.append("\" command handle error: ");
            text.append(why.as_str());
        },
        ChatErrorKind::HandlerPanic(name) => {
            text.append(name.as_str());
            text.append("\" command panicked");
        },
    }
    text
}

// Notices --------------------------------------------------------------------
/// The notice that the sender of `ctx` gets about `error` at `now`: none if
/// the sender has had as many notices as the failure limit allows.
pub open spec fn notice(spam: SpamView, ctx: MessageView, error: ChatError, now: u128) -> Option<
    ReplyView,
> {
    if spam.failure_cooldown(ctx.chatter_id, now) is Some {
        None
    } else {
        Some(answer_to(ctx, notice_text(error, ctx)))
    }
}

/// Decides at `now` whether the sender of `ctx` is told about `error`, and
/// counts the notice if so. Returns the notice, addressed to `ctx`.
pub fn send_chat_err_msg_at(spam: &mut Spam, ctx: &ChatMessage, error: &ChatErrorKind, now: u128) -> (told:
    Option<Reply>)
    ensures
        final(spam)@ == old(spam)@.after_failure_check(ctx@.chatter_id, now),
        told is Some <==> notice(old(spam)@, ctx@, error@, now) is Some,
        told matches Some(reply) ==> Some(reply@) == notice(old(spam)@, ctx@, error@, now),
{
    if spam.check_failed_command_cooldown_at(ctx.chatter.id.as_str(), now).is_some() {
        return None;
    }
    Some(Reply::to(ctx, write_notice(error, ctx)))
}

/// Decides whether the sender of `ctx` is told about `error`, by the clock of
/// `spam`, and counts the notice if so. Returns the notice, addressed to
/// `ctx`.
pub fn send_chat_err_msg(spam: &mut Spam, ctx: &ChatMessage, error: &ChatErrorKind) -> (told: Option<
    Reply,
>)
    ensures
        exists|now: u128|
            {
                &&& final(spam)@ == #[trigger] old(spam)@.after_failure_check(ctx@.chatter_id, now)
                &&& told is Some <==> notice(old(spam)@, ctx@, error@, now) is Some
                &&& told matches Some(reply) ==> Some(reply@) == notice(
                    old(spam)@,
                    ctx@,
                    error@,
                    now,
                )
            },
{
    let now: u128 = spam.now();
    send_chat_err_msg_at(spam, ctx, error, now)
}

// Verdicts -------------------------------------------------------------------
/// What became of a message.
#[derive(Debug, Clone, PartialEq, Eq)]
pub enum Verdict {
    /// Nothing is to be done: it is the bot's own message, or ordinary chat.
    Ignored,
    /// The message came to nothing, for the given reason. The reply is the
    /// notice to send, unless the sender has had too many of them.
    Rejected(ChatErrorKind, Option<Reply>),
    /// The named command handled the message and gave this answer.
    Handled(String, Response),
}

/// What became of a message, as text.
pub enum VerdictView {
    Ignored,
    Rejected(ChatError, Option<ReplyView>),
    Handled(Seq<char>, ResponseView),
}

impl View for Verdict {
    type V = VerdictView;

    open spec fn view(&self) -> VerdictView {
        match self {
            Verdict::Ignored => VerdictView::Ignored,
            Verdict::Rejected(error, told) => VerdictView::Rejected(
                error@,
                match told {
                    Some(reply) => Some(reply@),
                    None => None,
                },
            ),
            Verdict::Handled(name, response) => VerdictView::Handled(name@, response@),
        }
    }
}

/// How far a message gets before a command is asked.
pub enum Admission {
    /// Not at all: it is the bot's own message, or ordinary chat.
    Ignore,
    /// It is refused, for the given reason.
    Reject(ChatError),
    /// The command at the given place is asked, under the given name.
    Invoke(usize, Seq<char>),
}

/// How far the message `ctx` gets at `now`.
///
/// The order is fixed. A message of the bot itself is dropped first, before it
/// can count against any limit. Then the text is parsed; ordinary chat is
/// dropped, and a malformed command is refused. Then the sender's command rate
/// is checked, then the name is looked up, and last the rate of the command
/// is checked by the command's own limit, under the name it was called by.
pub open spec fn admission(
    bot_id: Seq<char>,
    ctx: MessageView,
    cmds: RegistryView,
    spam: SpamView,
    now: u128,
) -> Admission {
    if ctx.chatter_id == bot_id {
        Admission::Ignore
    } else {
        match parsed(ctx.text) {
            ParsedCommand::NotACommand => Admission::Ignore,
            ParsedCommand::InvalidCommand => Admission::Reject(ChatError::InvalidCommand),
            ParsedCommand::ValidCommand(name, _) => {
                if spam.user_cooldown(ctx.chatter_id, now) is Some {
                    Admission::Reject(ChatError::SpamDetected)
                } else {
                    match cmds.lookup(name) {
                        None => Admission::Reject(ChatError::CommandDoesNotExist(name)),
                        Some(place) => {
                            match spam.after_user_check(ctx.chatter_id, now).command_cooldown(
                                name,
                                Some(&cmds.entries[place as int].limit()),
                                now,
                            ) {
                                Some(left) => Admission::Reject(
                                    ChatError::CommandCooldown(name, left),
                                ),
                                None => Admission::Invoke(place, name),
                            }
                        },
                    }
                }
            },
        }
    }
}

/// What the limiters hold once the message `ctx` has got as far as it gets at
/// `now`, before any notice is counted.
pub open spec fn checked(
    bot_id: Seq<char>,
    ctx: MessageView,
    cmds: RegistryView,
    spam: SpamView,
    now: u128,
) -> SpamView {
    if ctx.chatter_id == bot_id {
        spam
    } else {
        match parsed(ctx.text) {
            ParsedCommand::ValidCommand(name, _) => {
                if spam.user_cooldown(ctx.chatter_id, now) is Some {
                    spam.after_user_check(ctx.chatter_id, now)
                } else {
                    match cmds.lookup(name) {
                        None => spam.after_user_check(ctx.chatter_id, now),
                        Some(place) => spam.after_user_check(
                            ctx.chatter_id,
                            now,
                        ).after_command_check(
                            name,
                            Some(&cmds.entries[place as int].limit()),
                            now,
                        ),
                    }
                }
            },
            _ => spam,
        }
    }
}

/// Whether `after` is `before` but for the command at `place`.
pub open spec fn same_but_at(before: RegistryView, after: RegistryView, place: int) -> bool {
    &&& after.index == before.index
    &&& after.entries.len() == before.entries.len()
    &&& forall|i: int|
        0 <= i < before.entries.len() && i != place ==> after.entries[i] == before.entries[i]
}

/// Whether a refusal for `error` at `now` leaves the limiters as `spam_after`
/// and comes out as `verdict`: the notice is counted, and given unless the
/// sender has had too many.
pub open spec fn refused(
    spam: SpamView,
    ctx: MessageView,
    error: ChatError,
    now: u128,
    spam_after: SpamView,
    verdict: VerdictView,
) -> bool {
    &&& spam_after == spam.after_failure_check(ctx.chatter_id, now)
    &&& verdict == VerdictView::Rejected(error, notice(spam, ctx, error, now))
}

/// Whether the message `ctx`, received at `now` by a bot in the given state,
/// may leave the bot in the state `cmds_after`, `spam_after` and come out as
/// `verdict`.
///
/// A message that is ignored changes nothing. One that is refused counts
/// against the limits it was checked by, and its notice against the failure
/// limit. One that is admitted is handled by the command it names, and by no
/// other; what the command answers is the verdict, and a command that fails
/// is a refusal like any other.
pub open spec fn dispatched(
    bot_id: Seq<char>,
    ctx: MessageView,
    cmds: RegistryView,
    spam: SpamView,
    now: u128,
    cmds_after: RegistryView,
    spam_after: SpamView,
    verdict: VerdictView,
) -> bool {
    match admission(bot_id, ctx, cmds, spam, now) {
        Admission::Ignore => {
            &&& verdict == VerdictView::Ignored
            &&& spam_after == spam
            &&& cmds_after == cmds
        },
        Admission::Reject(error) => {
            &&& refused(checked(bot_id, ctx, cmds, spam, now), ctx, error, now, spam_after, verdict)
            &&& cmds_after == cmds
        },
        Admission::Invoke(place, name) => {
            &&& same_but_at(cmds, cmds_after, place as int)
            &&& match verdict {
                VerdictView::Handled(called, response) => {
                    &&& called == name
                    &&& cmds.entries[place as int].handles(
                        ctx,
                        cmds_after.entries[place as int],
                        Ok(response),
                    )
                    &&& spam_after == checked(bot_id, ctx, cmds, spam, now)
                },
                VerdictView::Rejected(ChatError::HandlerError(called, why), told) => {
                    &&& called == name
                    &&& cmds.entries[place as int].handles(
                        ctx,
                        cmds_after.entries[place as int],
                        Err(why),
                    )
                    &&& refused(
                        checked(bot_id, ctx, cmds, spam, now),
                        ctx,
                        ChatError::HandlerError(name, why),
                        now,
                        spam_after,
                        verdict,
                    )
                },
                _ => false,
            }
        },
    }
}

/// The bot does not answer itself: a message of its own, whatever it says,
/// comes to nothing, counts against no limit and reaches no command.
pub proof fn lemma_own_messages_change_nothing(
    bot_id: Seq<char>,
    ctx: MessageView,
    cmds: RegistryView,
    spam: SpamView,
    now: u128,
    cmds_after: RegistryView,
    spam_after: SpamView,
    verdict: VerdictView,
)
    requires
        ctx.chatter_id == bot_id,
        dispatched(bot_id, ctx, cmds, spam, now, cmds_after, spam_after, verdict),
    ensures
        verdict == VerdictView::Ignored,
        cmds_after == cmds,
        spam_after == spam,
{
}

/// Ordinary chat is never answered: a message that is no command comes to
/// nothing, counts against no limit and reaches no command.
pub proof fn lemma_ordinary_chat_is_ignored(
    bot_id: Seq<char>,
    ctx: MessageView,
    cmds: RegistryView,
    spam: SpamView,
    now: u128,
    cmds_after: RegistryView,
    spam_after: SpamView,
    verdict: VerdictView,
)
    requires
        parsed(ctx.text) == ParsedCommand::NotACommand,
        dispatched(bot_id, ctx, cmds, spam, now, cmds_after, spam_after, verdict),
    ensures
        verdict == VerdictView::Ignored,
        cmds_after == cmds,
        spam_after == spam,
{
}

/// A notice is given only if the failure limit allows it, and a message that
/// is refused before a command is asked changes no command. A user who sends
/// commands too quickly does not get as far as the lookup: the rate of no
/// command is counted.
pub proof fn lemma_refusals_are_limited(
    bot_id: Seq<char>,
    ctx: MessageView,
    cmds: RegistryView,
    spam: SpamView,
    now: u128,
    cmds_after: RegistryView,
    spam_after: SpamView,
    verdict: VerdictView,
)
    requires
        dispatched(bot_id, ctx, cmds, spam, now, cmds_after, spam_after, verdict),
    ensures
        verdict matches VerdictView::Rejected(_, Some(_)) ==> checked(
            bot_id,
            ctx,
            cmds,
            spam,
            now,
        ).failure_cooldown(ctx.chatter_id, now) is None,
        admission(bot_id, ctx, cmds, spam, now) is Reject ==> cmds_after == cmds,
        admission(bot_id, ctx, cmds, spam, now) == Admission::Reject(ChatError::SpamDetected)
            ==> spam_after.commands == spam.commands,
{
}

/// A command whose sending broke off cannot take the bot down with it: the
/// report is a refusal like any other, every command stays as it was, and the
/// only limit that counts is that of the notices.
pub proof fn lemma_broken_delivery_is_contained(
    ctx: MessageView,
    name: Seq<char>,
    must_arrive: bool,
    cmds: RegistryView,
    spam: SpamView,
    now: u128,
    cmds_after: RegistryView,
    spam_after: SpamView,
    verdict: VerdictView,
)
    requires
        delivery_reported(
            ctx,
            name,
            must_arrive,
            DeliveryView::Aborted,
            cmds,
            spam,
            now,
            cmds_after,
            spam_after,
            verdict,
        ),
    ensures
        verdict matches VerdictView::Rejected(ChatError::HandlerPanic(called), _) && called == name,
        cmds_after == cmds,
        spam_after.users == spam.users,
        spam_after.commands == spam.commands,
{
}

/// Handles the chat message `ctx`, received at `now`, if it is a command.
///
/// See [`dispatched`] for what happens, and in which order.
pub fn handle_command_if_applicable_at(
    ctx: &ChatMessage,
    cmds: &mut CommandMap,
    bot_id: &str,
    spam: &mut Spam,
    now: u128,
) -> (verdict: Verdict)
    ensures
        dispatched(bot_id@, ctx@, old(cmds)@, old(spam)@, now, final(cmds)@, final(spam)@, verdict@),
{
    // Ignore commands sent by the bot itself
    if same_text(ctx.chatter.id.as_str(), bot_id) {
        return Verdict::Ignored;
    }
    // Parse the command from the message
    let cmd_name: String = match Command::parse(ctx.text.as_str()) {
        CommandParseResult::NotACommand => {
            return Verdict::Ignored;
        },
        CommandParseResult::InvalidCommand => {
            let error = ChatErrorKind::InvalidCommand;
            let told: Option<Reply> = send_chat_err_msg_at(spam, ctx, &error, now);
            return Verdict::Rejected(error, told);
        },
        CommandParseResult::ValidCommand(cmd_name, _args) => cmd_name,
    };

    // Check if the user is sending commands too quickly
    if spam.check_user_command_cooldown_at(ctx.chatter.id.as_str(), now).is_some() {
        let error = ChatErrorKind::SpamDetected;
        let told: Option<Reply> = send_chat_err_msg_at(spam, ctx, &error, now);
        return Verdict::Rejected(error, told);
    }
    // Check if the command exists
    let place: usize = match cmds.lookup(cmd_name.as_str()) {
        Some(place) => place,
        None => {
            let error = ChatErrorKind::CommandDoesNotExist(cmd_name);
            let told: Option<Reply> = send_chat_err_msg_at(spam, ctx, &error, now);
            return Verdict::Rejected(error, told);
        },
    };
    let limit: RateLimit = cmds.rate_limit_at(place);

    // Check if the command is under cooldown
    match spam.check_global_command_cooldown_at(cmd_name.as_str(), Some(&limit), now) {
        Some(left) => {
            let error = ChatErrorKind::CommandCooldown(cmd_name, left);
            let told: Option<Reply> = send_chat_err_msg_at(spam, ctx, &error, now);
            return Verdict::Rejected(error, told);
        },
        None => {},
    }

    match cmds.handle(place, ctx) {
        Ok(response) => Verdict::Handled(cmd_name, response),
        Err(why) => {
            let error = ChatErrorKind::HandlerError(cmd_name, why);
            let told: Option<Reply> = send_chat_err_msg_at(spam, ctx, &error, now);
            Verdict::Rejected(error, told)
        },
    }
}

/// Handles the chat message `ctx`, received now by the clock of `spam`, if it
/// is a command.
///
/// The outcome is that of [`handle_command_if_applicable_at`] for the reading
/// the clock gave.
pub fn handle_command_if_applicable(
    ctx: &ChatMessage,
    cmds: &mut CommandMap,
    bot_id: &str,
    spam: &mut Spam,
) -> (verdict: Verdict)
    ensures
        exists|now: u128| #[trigger]
            dispatched(
                bot_id@,
                ctx@,
                old(cmds)@,
                old(spam)@,
                now,
                final(cmds)@,
                final(spam)@,
                verdict@,
            ),
{
    let now: u128 = spam.now();
    handle_command_if_applicable_at(ctx, cmds, bot_id, spam, now)
}

// Delivery -------------------------------------------------------------------
/// How the sending of a command's answer went.
#[derive(Debug, Clone, PartialEq, Eq)]
pub enum Delivery {
    /// Every message went out.
    Sent,
    /// A message could not be sent, for the given reason.
    Failed(String),
    /// The sending broke off.
    Aborted,
}

/// How the sending of a command's answer went, as text.
pub enum DeliveryView {
    Sent,
    Failed(Seq<char>),
    Aborted,
}

impl View for Delivery {
    type V = DeliveryView;

    open spec fn view(&self) -> DeliveryView {
        match self {
            Delivery::Sent => DeliveryView::Sent,
            Delivery::Failed(why) => DeliveryView::Failed(why@),
            Delivery::Aborted => DeliveryView::Aborted,
        }
    }
}

/// Whether the report `delivery` on the answer that the command `name` gave
/// to `ctx`, made at `now` to a bot in the given state, may leave the bot in
/// the state `cmds_after`, `spam_after` and come out as `verdict`.
///
/// An answer that went out is told to the command, and nothing is owed. One
/// that could not be sent is a failure of the command if the answer had to
/// arrive, and nothing otherwise. One whose sending broke off is a failure in
/// any case. A failure is a refusal like any other: its notice is counted, and
/// given unless the sender has had too many.
pub open spec fn delivery_reported(
    ctx: MessageView,
    name: Seq<char>,
    must_arrive: bool,
    delivery: DeliveryView,
    cmds: RegistryView,
    spam: SpamView,
    now: u128,
    cmds_after: RegistryView,
    spam_after: SpamView,
    verdict: VerdictView,
) -> bool {
    match delivery {
        DeliveryView::Sent => {
            &&& verdict == VerdictView::Ignored
            &&& spam_after == spam
            &&& match cmds.lookup(name) {
                Some(place) => {
                    &&& same_but_at(cmds, cmds_after, place as int)
                    &&& cmds.entries[place as int].once_delivered(cmds_after.entries[place as int])
                },
                None => cmds_after == cmds,
            }
        },
        DeliveryView::Failed(why) => {
            &&& cmds_after == cmds
            &&& if must_arrive {
                refused(spam, ctx, ChatError::HandlerError(name, why), now, spam_after, verdict)
            } else {
                verdict == VerdictView::Ignored && spam_after == spam
            }
        },
        DeliveryView::Aborted => {
            &&& cmds_after == cmds
            &&& refused(spam, ctx, ChatError::HandlerPanic(name), now, spam_after, verdict)
        },
    }
}

/// Takes the report, made at `now`, on how the answer of the command
/// `command` to the message `ctx` was sent.
///
/// See [`delivery_reported`] for what happens.
pub fn report_delivery_at(
    ctx: &ChatMessage,
    command: &str,
    must_arrive: bool,
    delivery: Delivery,
    cmds: &mut CommandMap,
    spam: &mut Spam,
    now: u128,
) -> (verdict: Verdict)
    ensures
        delivery_reported(
            ctx@,
            command@,
            must_arrive,
            delivery@,
            old(cmds)@,
            old(spam)@,
            now,
            final(cmds)@,
            final(spam)@,
            verdict@,
        ),
{
    match delivery {
        Delivery::Sent => {
            match cmds.lookup(command) {
                Some(place) => {
                    cmds.delivered(place);
                },
                None => {},
            }
            Verdict::Ignored
        },
        Delivery::Failed(why) => {
            if must_arrive {
                let error = ChatErrorKind::HandlerError(command.to_owned(), why);
                let told: Option<Reply> = send_chat_err_msg_at(spam, ctx, &error, now);
                Verdict::Rejected(error, told)
            } else {
                Verdict::Ignored
            }
        },
        Delivery::Aborted => {
            let error = ChatErrorKind::HandlerPanic(command.to_owned());
            let told: Option<Reply> = send_chat_err_msg_at(spam, ctx, &error, now);
            Verdict::Rejected(error, told)
        },
    }
}

/// Takes the report, made now by the clock of `spam`, on how the answer of the
/// command `command` to the message `ctx` was sent.
///
/// The outcome is that of [`report_delivery_at`] for the reading the clock
/// gave.
pub fn report_delivery(
    ctx: &ChatMessage,
    command: &str,
    must_arrive: bool,
    delivery: Delivery,
    cmds: &mut CommandMap,
    spam: &mut Spam,
) -> (verdict: Verdict)
    ensures
        exists|now: u128| #[trigger]
            delivery_reported(
                ctx@,
                command@,
                must_arrive,
                delivery@,
                old(cmds)@,
                old(spam)@,
                now,
                final(cmds)@,
                final(spam)@,
                verdict@,
            ),
{
    let now: u128 = spam.now();
    report_delivery_at(ctx, command, must_arrive, delivery, cmds, spam, now)
}

} // verus!
