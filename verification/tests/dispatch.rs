use mostlybot::api::MockTwitchEventSubApi;
use mostlybot::command::CommandMap;
use mostlybot::commands::ban::MostlyBan;
use mostlybot::commands::count::Count;
use mostlybot::commands::kofi::MostlyKofi;
use mostlybot::commands::ping::MostlyPing;
use mostlybot::commands::status::MostlyStatus;
use mostlybot::commands::ChatCommand;
use mostlybot::commands::Handler;
use mostlybot::dispatch::handle_command_if_applicable;
use mostlybot::dispatch::handle_command_if_applicable_at;
use mostlybot::dispatch::report_delivery;
use mostlybot::dispatch::report_delivery_at;
use mostlybot::dispatch::send_chat_err_msg;
use mostlybot::dispatch::send_chat_err_msg_at;
use mostlybot::dispatch::write_notice;
use mostlybot::dispatch::write_seconds;
use mostlybot::dispatch::ChatErrorKind;
use mostlybot::dispatch::Delivery;
use mostlybot::dispatch::Verdict;
use mostlybot::message::ChatMessage;
use mostlybot::message::Reply;
use mostlybot::message::Response;
use mostlybot::message::User;
use mostlybot::spam::RateLimit;
use mostlybot::spam::Spam;
use std::time::Duration;

const BOT_ID: &str = "id_bot";
const MESSAGE_ID: &str = "3104f083-2bdb-4d6a-bb5d-30b407876ea4";
const SECOND: u128 = 1_000_000_000;

/// Simulates a twitch chat message
fn create_chat_msg(cmd: &str, chatter_id: &str) -> ChatMessage {
    ChatMessage {
        broadcaster: User { id: "938429017".to_string(), name: "mostlymaxi".to_string() },
        chatter: User { id: chatter_id.to_string(), name: "mostlymaxi".to_string() },
        message_id: MESSAGE_ID.to_string(),
        text: cmd.to_string(),
        badges: vec!["broadcaster".to_string(), "subscriber".to_string()],
        moderator: false,
    }
}

fn notice(body: &str) -> Option<Reply> {
    Some(Reply { body: body.to_string(), parent: Some(MESSAGE_ID.to_string()) })
}

fn pong() -> Response {
    Response {
        replies: vec![Reply { body: "pong".to_string(), parent: Some(MESSAGE_ID.to_string()) }],
        must_arrive: true,
    }
}

fn ping_only() -> CommandMap {
    let mut commands = CommandMap::new();
    commands.insert(Handler::Ping(MostlyPing::new()));
    commands
}

/// Test handling of various command scenarios, including spam detection and invalid commands
#[test]
fn test_chat_command_handling() {
    let mut commands = CommandMap::new();
    commands.insert(Handler::Ping(MostlyPing::new()));

    let mut api = MockTwitchEventSubApi::init_twitch_api();

    // Allow 1 command every 3 seconds
    let mut spam_check = Spam::new(
        RateLimit::new(1, Duration::from_secs(3)),
        RateLimit::new(0, Duration::ZERO),
        RateLimit::new(0, Duration::ZERO),
    );

    // Create a variety of test cases to cover different command scenarios
    let chat_messages = vec![
        // Basic valid command
        create_chat_msg("!ping", "id_ping0"),
        // Valid command with arguments
        create_chat_msg("!ping with args", "id_ping1"),
        // Non-existent command
        create_chat_msg("!nonexistent", "id_phantom"),
        // Message without the command prefix
        create_chat_msg("ping", "id_invalid_no_prefix"),
        // Valid command, but sent by the bot itself
        create_chat_msg("!ping", BOT_ID),
        // Empty command (just the prefix)
        create_chat_msg("!", "id_empty_command"),
        // Command with extra spaces
        create_chat_msg("!ping    ", "id_ping_extra_spaces"),
        // Command with special characters
        create_chat_msg("!ping$@", "id_ping_special_chars"),
        // Mixed case command
        create_chat_msg("!Ping", "id_mixed_case"),
        // Spam check (with same user/chatter id)
        create_chat_msg("!ping", "id_spam"),
        create_chat_msg("!ping2", "id_spam"),
        create_chat_msg("!ping$@", "id_spam"),
        create_chat_msg("!Ping", "id_spam"),
    ];

    let mut verdicts = Vec::new();
    for chat_msg in chat_messages.into_iter() {
        let verdict =
            handle_command_if_applicable(&chat_msg, &mut commands, BOT_ID, &mut spam_check);
        match &verdict {
            Verdict::Handled(name, response) => {
                let delivery = api.deliver(response);
                let told = report_delivery(
                    &chat_msg,
                    name,
                    response.must_arrive,
                    delivery,
                    &mut commands,
                    &mut spam_check,
                );
                assert_eq!(told, Verdict::Ignored);
            }
            Verdict::Rejected(_, Some(reply)) => {
                let _ = api.send_chat_message_with_reply(&reply.body, MESSAGE_ID);
            }
            _ => {}
        }
        verdicts.push(verdict);
    }

    // the messages follow each other at once, so a ping may find the command on cooldown
    let pinged = |verdict: &Verdict| match verdict {
        Verdict::Handled(name, response) => name == "ping" && *response == pong(),
        Verdict::Rejected(ChatErrorKind::CommandCooldown(name, left), Some(_)) => {
            name == "ping" && *left <= 250_000_000
        }
        _ => false,
    };
    assert_eq!(verdicts.len(), 13);
    assert_eq!(verdicts[0], Verdict::Handled("ping".to_string(), pong()));
    assert!(pinged(&verdicts[1]), "{:?}", verdicts[1]);
    assert_eq!(
        verdicts[2],
        Verdict::Rejected(
            ChatErrorKind::CommandDoesNotExist("nonexistent".to_string()),
            notice("\"nonexistent\" does not exist"),
        )
    );
    assert_eq!(verdicts[3], Verdict::Ignored);
    assert_eq!(verdicts[4], Verdict::Ignored);
    assert_eq!(
        verdicts[5],
        Verdict::Rejected(ChatErrorKind::InvalidCommand, notice("\"!\", invalid command format"))
    );
    assert!(pinged(&verdicts[6]), "{:?}", verdicts[6]);
    assert_eq!(
        verdicts[7],
        Verdict::Rejected(
            ChatErrorKind::InvalidCommand,
            notice("\"!ping$@\", invalid command format"),
        )
    );
    assert_eq!(
        verdicts[8],
        Verdict::Rejected(
            ChatErrorKind::CommandDoesNotExist("Ping".to_string()),
            notice("\"Ping\" does not exist"),
        )
    );
    assert!(pinged(&verdicts[9]), "{:?}", verdicts[9]);
    assert_eq!(
        verdicts[10],
        Verdict::Rejected(
            ChatErrorKind::SpamDetected,
            notice("\"!ping2\", you are sending commands too quickly"),
        )
    );
    assert_eq!(
        verdicts[11],
        Verdict::Rejected(
            ChatErrorKind::InvalidCommand,
            notice("\"!ping$@\", invalid command format"),
        )
    );
    assert_eq!(
        verdicts[12],
        Verdict::Rejected(
            ChatErrorKind::SpamDetected,
            notice("\"!Ping\", you are sending commands too quickly"),
        )
    );
    assert_eq!(api.sent().len(), 11);
}

#[test]
fn chat_command_handling_at_fixed_times() {
    let mut commands = ping_only();
    let mut api = MockTwitchEventSubApi::init_twitch_api();
    // Allow 1 command every 3 seconds
    let mut spam_check = Spam::new(
        RateLimit::new(1, Duration::from_secs(3)),
        RateLimit::new(0, Duration::ZERO),
        RateLimit::new(0, Duration::ZERO),
    );
    let chat_messages = vec![
        create_chat_msg("!ping", "id_ping0"),
        create_chat_msg("!ping with args", "id_ping1"),
        create_chat_msg("!nonexistent", "id_phantom"),
        create_chat_msg("ping", "id_invalid_no_prefix"),
        create_chat_msg("!ping", BOT_ID),
        create_chat_msg("!", "id_empty_command"),
        create_chat_msg("!ping    ", "id_ping_extra_spaces"),
        create_chat_msg("!ping$@", "id_ping_special_chars"),
        create_chat_msg("!Ping", "id_mixed_case"),
        create_chat_msg("!ping", "id_spam"),
        create_chat_msg("!ping2", "id_spam"),
        create_chat_msg("!ping$@", "id_spam"),
        create_chat_msg("!Ping", "id_spam"),
    ];

    let mut verdicts = Vec::new();
    for (i, chat_msg) in chat_messages.into_iter().enumerate() {
        // one message every 300 ms
        let now = i as u128 * 300_000_000;
        let verdict =
            handle_command_if_applicable_at(&chat_msg, &mut commands, BOT_ID, &mut spam_check, now);
        match &verdict {
            Verdict::Handled(name, response) => {
                let delivery = api.deliver(response);
                let told = report_delivery_at(
                    &chat_msg,
                    name,
                    response.must_arrive,
                    delivery,
                    &mut commands,
                    &mut spam_check,
                    now,
                );
                assert_eq!(told, Verdict::Ignored);
            }
            Verdict::Rejected(_, Some(reply)) => {
                let _ = api.send_chat_message_with_reply(&reply.body, MESSAGE_ID);
            }
            _ => {}
        }
        verdicts.push(verdict);
    }

    let expected = vec![
        Verdict::Handled("ping".to_string(), pong()),
        Verdict::Handled("ping".to_string(), pong()),
        Verdict::Rejected(
            ChatErrorKind::CommandDoesNotExist("nonexistent".to_string()),
            notice("\"nonexistent\" does not exist"),
        ),
        Verdict::Ignored,
        Verdict::Ignored,
        Verdict::Rejected(ChatErrorKind::InvalidCommand, notice("\"!\", invalid command format")),
        Verdict::Handled("ping".to_string(), pong()),
        Verdict::Rejected(
            ChatErrorKind::InvalidCommand,
            notice("\"!ping$@\", invalid command format"),
        ),
        Verdict::Rejected(
            ChatErrorKind::CommandDoesNotExist("Ping".to_string()),
            notice("\"Ping\" does not exist"),
        ),
        Verdict::Handled("ping".to_string(), pong()),
        Verdict::Rejected(
            ChatErrorKind::SpamDetected,
            notice("\"!ping2\", you are sending commands too quickly"),
        ),
        Verdict::Rejected(
            ChatErrorKind::InvalidCommand,
            notice("\"!ping$@\", invalid command format"),
        ),
        Verdict::Rejected(
            ChatErrorKind::SpamDetected,
            notice("\"!Ping\", you are sending commands too quickly"),
        ),
    ];
    assert_eq!(verdicts, expected);
    assert_eq!(api.sent().len(), 11);
}

#[test]
fn ping_is_handled_and_a_second_one_is_spam() {
    let mut commands = ping_only();
    let mut spam = Spam::default();
    let mut api = MockTwitchEventSubApi::init_twitch_api();
    let msg = create_chat_msg("!ping", "u1");

    let first = handle_command_if_applicable_at(&msg, &mut commands, BOT_ID, &mut spam, 0);
    assert_eq!(first, Verdict::Handled("ping".to_string(), pong()));
    let delivery = api.deliver(&pong());
    assert_eq!(delivery, Delivery::Sent);
    let told = report_delivery_at(&msg, "ping", true, delivery, &mut commands, &mut spam, 1);
    assert_eq!(told, Verdict::Ignored);
    assert_eq!(api.sent(), &pong().replies);

    // immediately again: the user is on cooldown, and is told so
    let spam_notice = notice("\"!ping\", you are sending commands too quickly");
    let second = handle_command_if_applicable_at(&msg, &mut commands, BOT_ID, &mut spam, 2);
    assert_eq!(second, Verdict::Rejected(ChatErrorKind::SpamDetected, spam_notice.clone()));
    let third = handle_command_if_applicable_at(&msg, &mut commands, BOT_ID, &mut spam, 3);
    assert_eq!(third, Verdict::Rejected(ChatErrorKind::SpamDetected, spam_notice));
    // two notices per 30 seconds: the third is kept back
    let fourth = handle_command_if_applicable_at(&msg, &mut commands, BOT_ID, &mut spam, 4);
    assert_eq!(fourth, Verdict::Rejected(ChatErrorKind::SpamDetected, None));
    // after the user's 5 seconds the command is handled again
    let fifth =
        handle_command_if_applicable_at(&msg, &mut commands, BOT_ID, &mut spam, 5 * SECOND);
    assert_eq!(fifth, Verdict::Handled("ping".to_string(), pong()));
}

#[test]
fn unknown_command_is_told_once_where_one_notice_is_allowed() {
    let mut commands = ping_only();
    let mut spam = Spam::new(
        RateLimit::new(1, Duration::from_secs(5)),
        RateLimit::new(1, Duration::from_secs(5)),
        RateLimit::new(1, Duration::from_secs(30)),
    );
    let msg = create_chat_msg("!doesnotexist", "fresh");
    let error = ChatErrorKind::CommandDoesNotExist("doesnotexist".to_string());

    let first = handle_command_if_applicable_at(&msg, &mut commands, BOT_ID, &mut spam, 0);
    assert_eq!(
        first,
        Verdict::Rejected(error.clone(), notice("\"doesnotexist\" does not exist"))
    );
    // again, after the user's cooldown and within the window of the notices
    let second =
        handle_command_if_applicable_at(&msg, &mut commands, BOT_ID, &mut spam, 6 * SECOND);
    assert_eq!(second, Verdict::Rejected(error.clone(), None));
    // once the window of the notices is over the user is told again
    let third =
        handle_command_if_applicable_at(&msg, &mut commands, BOT_ID, &mut spam, 30 * SECOND);
    assert_eq!(
        third,
        Verdict::Rejected(error, notice("\"doesnotexist\" does not exist"))
    );
}

#[test]
fn unknown_command_is_told_twice_by_default() {
    let mut commands = ping_only();
    let mut spam = Spam::default();
    let msg = create_chat_msg("!doesnotexist", "fresh");
    let error = ChatErrorKind::CommandDoesNotExist("doesnotexist".to_string());
    let told = notice("\"doesnotexist\" does not exist");

    let first = handle_command_if_applicable_at(&msg, &mut commands, BOT_ID, &mut spam, 0);
    assert_eq!(first, Verdict::Rejected(error.clone(), told.clone()));
    let second =
        handle_command_if_applicable_at(&msg, &mut commands, BOT_ID, &mut spam, 6 * SECOND);
    assert_eq!(second, Verdict::Rejected(error.clone(), told));
    let third =
        handle_command_if_applicable_at(&msg, &mut commands, BOT_ID, &mut spam, 12 * SECOND);
    assert_eq!(third, Verdict::Rejected(error, None));
}

#[test]
fn messages_of_the_bot_are_ignored_and_cost_nothing() {
    let mut commands = ping_only();
    let mut spam = Spam::default();
    let own = create_chat_msg("!ping", BOT_ID);
    for now in 0..5 {
        let verdict = handle_command_if_applicable_at(&own, &mut commands, BOT_ID, &mut spam, now);
        assert_eq!(verdict, Verdict::Ignored);
    }
    let invalid = create_chat_msg("!pi$ng", BOT_ID);
    assert_eq!(
        handle_command_if_applicable_at(&invalid, &mut commands, BOT_ID, &mut spam, 5),
        Verdict::Ignored
    );
    // nothing was counted: not for the bot as a user, not for the command
    assert_eq!(spam.check_user_command_cooldown_at(BOT_ID, 6), None);
    assert_eq!(spam.check_failed_command_cooldown_at(BOT_ID, 6), None);
    let user = create_chat_msg("!ping", "u1");
    assert_eq!(
        handle_command_if_applicable_at(&user, &mut commands, BOT_ID, &mut spam, 7),
        Verdict::Handled("ping".to_string(), pong())
    );
}

#[test]
fn ordinary_chat_is_ignored_without_notice() {
    let mut commands = ping_only();
    let mut spam = Spam::default();
    for text in ["ping", "hello there", "", "   ", "what is !ping"] {
        let msg = create_chat_msg(text, "chatty");
        assert_eq!(
            handle_command_if_applicable_at(&msg, &mut commands, BOT_ID, &mut spam, 0),
            Verdict::Ignored
        );
    }
    assert_eq!(spam.check_user_command_cooldown_at("chatty", 1), None);
    assert_eq!(spam.check_failed_command_cooldown_at("chatty", 1), None);
}

#[test]
fn command_that_breaks_off_is_reported_and_the_bot_goes_on() {
    let mut commands = ping_only();
    commands.insert(Handler::Count(Count::new()));
    let mut spam = Spam::default();
    let mut api = MockTwitchEventSubApi::init_twitch_api();

    let msg = create_chat_msg("!count", "u1");
    let verdict = handle_command_if_applicable_at(&msg, &mut commands, BOT_ID, &mut spam, 0);
    let response = match verdict {
        Verdict::Handled(name, response) => {
            assert_eq!(name, "count");
            response
        }
        other => panic!("not handled: {:?}", other),
    };
    assert_eq!(
        response,
        Response {
            replies: vec![Reply { body: "current count: 0".to_string(), parent: None }],
            must_arrive: false
        }
    );
    // the stand-in for the chat cannot send a message that answers nothing
    let delivery = api.deliver(&response);
    assert_eq!(delivery, Delivery::Aborted);
    let told = report_delivery_at(&msg, "count", false, delivery, &mut commands, &mut spam, 1);
    assert_eq!(
        told,
        Verdict::Rejected(
            ChatErrorKind::HandlerPanic("count".to_string()),
            notice("\"count\" command panicked")
        )
    );
    // the next message is handled as ever
    let next = create_chat_msg("!ping", "u2");
    assert_eq!(
        handle_command_if_applicable_at(&next, &mut commands, BOT_ID, &mut spam, 2),
        Verdict::Handled("ping".to_string(), pong())
    );
    // and the counter did not count the answer that never arrived
    let again = create_chat_msg("!count", "u3");
    match handle_command_if_applicable_at(&again, &mut commands, BOT_ID, &mut spam, SECOND) {
        Verdict::Handled(_, response) => assert_eq!(response.replies[0].body, "current count: 0"),
        other => panic!("not handled: {:?}", other),
    }
}

#[test]
fn counter_counts_answers_that_arrived() {
    let mut commands = CommandMap::new();
    commands.insert(Handler::Count(Count::new()));
    let unlimited = RateLimit::new(0, Duration::ZERO);
    let mut spam = Spam::new(unlimited, unlimited, unlimited);
    let msg = create_chat_msg("!count", "u1");
    let expected = ["current count: 0", "current count: 1", "current count: 2"];
    for (i, body) in expected.iter().enumerate() {
        // the command may be called every 250 ms
        let now = i as u128 * 250_000_000;
        match handle_command_if_applicable_at(&msg, &mut commands, BOT_ID, &mut spam, now) {
            Verdict::Handled(name, response) => {
                assert_eq!(response.replies[0].body, *body);
                let told = report_delivery_at(
                    &msg,
                    &name,
                    response.must_arrive,
                    Delivery::Sent,
                    &mut commands,
                    &mut spam,
                    now,
                );
                assert_eq!(told, Verdict::Ignored);
            }
            other => panic!("not handled: {:?}", other),
        }
    }
    // a report for a command that is not there changes nothing
    let told = report_delivery_at(&msg, "nothing", true, Delivery::Sent, &mut commands, &mut spam, 0);
    assert_eq!(told, Verdict::Ignored);
}

#[test]
fn failed_delivery_fails_the_command_only_if_the_answer_must_arrive() {
    let mut commands = ping_only();
    commands.insert(Handler::Kofi(MostlyKofi::new()));
    let mut spam = Spam::default();
    let msg = create_chat_msg("!ping", "u1");
    let failed = Delivery::Failed("ConnectionLost".to_string());

    let told = report_delivery_at(&msg, "ping", true, failed.clone(), &mut commands, &mut spam, 0);
    assert_eq!(
        told,
        Verdict::Rejected(
            ChatErrorKind::HandlerError("ping".to_string(), "ConnectionLost".to_string()),
            notice("\"ping\" command handle error: ConnectionLost")
        )
    );
    let told = report_delivery_at(&msg, "kofi", false, failed, &mut commands, &mut spam, 0);
    assert_eq!(told, Verdict::Ignored);
    // only the first report counted as a notice
    assert_eq!(spam.check_failed_command_cooldown_at("u1", 1), None);
    assert!(spam.check_failed_command_cooldown_at("u1", 2).is_some());
}

#[test]
fn command_that_fails_is_reported() {
    let mut commands = CommandMap::new();
    commands.insert(Handler::Ban(MostlyBan::new()));
    let mut spam = Spam::default();
    let msg = create_chat_msg("!ban ", "u1");
    assert_eq!(
        handle_command_if_applicable_at(&msg, &mut commands, BOT_ID, &mut spam, 0),
        Verdict::Rejected(
            ChatErrorKind::HandlerError("ban".to_string(), "No argument provided".to_string()),
            notice("\"ban\" command handle error: No argument provided")
        )
    );
}

#[test]
fn command_on_cooldown_tells_how_long_to_wait() {
    let mut commands = ping_only();
    let mut spam = Spam::default();
    let first = create_chat_msg("!ping", "u1");
    let second = create_chat_msg("!ping", "u2");
    assert_eq!(
        handle_command_if_applicable_at(&first, &mut commands, BOT_ID, &mut spam, 0),
        Verdict::Handled("ping".to_string(), pong())
    );
    // ping may be called once every 250 ms; 100 ms have passed
    assert_eq!(
        handle_command_if_applicable_at(&second, &mut commands, BOT_ID, &mut spam, 100_000_000),
        Verdict::Rejected(
            ChatErrorKind::CommandCooldown("ping".to_string(), 150_000_000),
            notice("\"ping\" is on cooldown, wait 0.2 seconds")
        )
    );
    // the refused call has cost the second user their own attempt
    assert_eq!(
        handle_command_if_applicable_at(&second, &mut commands, BOT_ID, &mut spam, 250_000_000),
        Verdict::Rejected(
            ChatErrorKind::SpamDetected,
            notice("\"!ping\", you are sending commands too quickly")
        )
    );
    let third = create_chat_msg("!ping", "u3");
    assert_eq!(
        handle_command_if_applicable_at(&third, &mut commands, BOT_ID, &mut spam, 250_000_000),
        Verdict::Handled("ping".to_string(), pong())
    );
}

#[test]
fn command_goes_by_its_own_limit() {
    let mut commands = CommandMap::new();
    commands.insert(Handler::Status(MostlyStatus::new()));
    let mut spam = Spam::default();
    // status may be called 5 times a second
    for i in 0..5u128 {
        let msg = create_chat_msg("!status", &format!("user{}", i));
        match handle_command_if_applicable_at(&msg, &mut commands, BOT_ID, &mut spam, i) {
            Verdict::Handled(name, response) => {
                assert_eq!(name, "status");
                assert_eq!(response.replies[0].body, "Bot is offline");
                assert_eq!(response.replies[0].parent, None);
            }
            other => panic!("not handled: {:?}", other),
        }
    }
    let msg = create_chat_msg("!status", "late");
    assert_eq!(
        handle_command_if_applicable_at(&msg, &mut commands, BOT_ID, &mut spam, 400_000_000),
        Verdict::Rejected(
            ChatErrorKind::CommandCooldown("status".to_string(), 600_000_000),
            notice("\"status\" is on cooldown, wait 0.6 seconds")
        )
    );
}

#[test]
fn aliases_cool_down_apart() {
    let mut commands = CommandMap::new();
    commands.insert(Handler::Kofi(MostlyKofi::new()));
    let mut spam = Spam::default();
    let first = create_chat_msg("!kofi", "u1");
    let second = create_chat_msg("!donate", "u2");
    let third = create_chat_msg("!kofi", "u3");
    assert!(matches!(
        handle_command_if_applicable_at(&first, &mut commands, BOT_ID, &mut spam, 0),
        Verdict::Handled(_, _)
    ));
    assert!(matches!(
        handle_command_if_applicable_at(&second, &mut commands, BOT_ID, &mut spam, 1),
        Verdict::Handled(_, _)
    ));
    assert!(matches!(
        handle_command_if_applicable_at(&third, &mut commands, BOT_ID, &mut spam, 2),
        Verdict::Rejected(ChatErrorKind::CommandCooldown(_, 249_999_998), _)
    ));
}

#[test]
fn every_error_has_its_notice() {
    let msg = create_chat_msg("!what ever", "u1");
    let cases = vec![
        (ChatErrorKind::InvalidCommand, "\"!what ever\", invalid command format"),
        (ChatErrorKind::SpamDetected, "\"!what ever\", you are sending commands too quickly"),
        (
            ChatErrorKind::CommandCooldown("what".to_string(), 4_949_999_999),
            "\"what\" is on cooldown, wait 4.9 seconds",
        ),
        (ChatErrorKind::CommandDoesNotExist("what".to_string()), "\"what\" does not exist"),
        (
            ChatErrorKind::HandlerError("what".to_string(), "too many arguments".to_string()),
            "\"what\" command handle error: too many arguments",
        ),
        (ChatErrorKind::HandlerPanic("what".to_string()), "\"what\" command panicked"),
    ];
    for (error, text) in cases {
        assert_eq!(write_notice(&error, &msg), text);
    }
}

#[test]
fn seconds_are_written_with_one_decimal() {
    assert_eq!(write_seconds(0), "0.0");
    assert_eq!(write_seconds(49_999_999), "0.0");
    assert_eq!(write_seconds(50_000_000), "0.1");
    assert_eq!(write_seconds(149_999_999), "0.1");
    assert_eq!(write_seconds(150_000_000), "0.2");
    assert_eq!(write_seconds(5_000_000_000), "5.0");
    assert_eq!(write_seconds(9_950_000_000), "10.0");
    assert_eq!(write_seconds(29_999_999_999), "30.0");
    assert_eq!(write_seconds(123_456_789_012), "123.5");
    assert_eq!(write_seconds(u128::MAX), "340282366920938463463374607431.8");
}

#[test]
fn notices_are_limited_per_user() {
    let mut spam = Spam::default();
    let one = create_chat_msg("!x", "u1");
    let other = create_chat_msg("!x", "u2");
    let error = ChatErrorKind::InvalidCommand;
    let told = notice("\"!x\", invalid command format");
    assert_eq!(send_chat_err_msg_at(&mut spam, &one, &error, 0), told);
    assert_eq!(send_chat_err_msg_at(&mut spam, &one, &error, 1), told);
    assert_eq!(send_chat_err_msg_at(&mut spam, &one, &error, 2), None);
    assert_eq!(send_chat_err_msg_at(&mut spam, &other, &error, 3), told);
    assert_eq!(send_chat_err_msg_at(&mut spam, &one, &error, 30 * SECOND), told);
}

#[test]
fn notices_by_the_clock() {
    let mut spam = Spam::default();
    let msg = create_chat_msg("!x", "u1");
    let error = ChatErrorKind::SpamDetected;
    assert!(send_chat_err_msg(&mut spam, &msg, &error).is_some());
    assert!(send_chat_err_msg(&mut spam, &msg, &error).is_some());
    assert_eq!(send_chat_err_msg(&mut spam, &msg, &error), None);
}
