use mostlybot::api::MockTwitchEventSubApi;
use mostlybot::dispatch::Delivery;
use mostlybot::message::Reply;
use mostlybot::message::Response;

fn reply(body: &str) -> Reply {
    Reply { body: body.to_string(), parent: Some("parent".to_string()) }
}

fn plain(body: &str) -> Reply {
    Reply { body: body.to_string(), parent: None }
}

#[test]
fn mock_begins_empty() {
    let api = MockTwitchEventSubApi::init_twitch_api();
    assert!(api.sent().is_empty());
}

#[test]
fn mock_keeps_what_it_is_sent() {
    let mut api = MockTwitchEventSubApi::init_twitch_api();
    assert_eq!(api.send_chat_message_with_reply("one", "a"), Ok(String::new()));
    assert_eq!(api.send_chat_message_with_reply("two", "b"), Ok(String::new()));
    assert_eq!(
        api.sent(),
        &vec![
            Reply { body: "one".to_string(), parent: Some("a".to_string()) },
            Reply { body: "two".to_string(), parent: Some("b".to_string()) },
        ]
    );
}

#[test]
fn mock_delivers_replies() {
    let mut api = MockTwitchEventSubApi::init_twitch_api();
    let response = Response { replies: vec![reply("a"), reply("b")], must_arrive: false };
    assert_eq!(api.deliver(&response), Delivery::Sent);
    assert_eq!(api.sent(), &response.replies);
    let nothing = Response { replies: vec![], must_arrive: true };
    assert_eq!(api.deliver(&nothing), Delivery::Sent);
    assert_eq!(api.sent().len(), 2);
}

#[test]
fn mock_breaks_off_at_a_message_that_answers_nothing() {
    let mut api = MockTwitchEventSubApi::init_twitch_api();
    let response =
        Response { replies: vec![reply("a"), plain("b"), reply("c")], must_arrive: false };
    assert_eq!(api.deliver(&response), Delivery::Aborted);
    assert_eq!(api.sent(), &vec![reply("a")]);
}
