use mostlybot::commands::ban::MostlyBan;
use mostlybot::commands::bot_time::BotTime;
use mostlybot::commands::commands::MostlyCommands;
use mostlybot::commands::count::Count;
use mostlybot::commands::discord::MostlyDiscord;
use mostlybot::commands::git::MostlyGit;
use mostlybot::commands::js::MostlyJs;
use mostlybot::commands::kofi::MostlyKofi;
use mostlybot::commands::lurk::Lurk;
use mostlybot::commands::lurk::Lurker;
use mostlybot::commands::mostlybot::MostlyBot;
use mostlybot::commands::mostlypasta::MostlyPasta;
use mostlybot::commands::ping::MostlyPing;
use mostlybot::commands::pong::MostlyPong;
use mostlybot::commands::progress::Progress;
use mostlybot::commands::rewrite::MostlyRewrite;
use mostlybot::commands::status::MostlyStatus;
use mostlybot::commands::uwu::has_badge;
use mostlybot::commands::uwu::Kaomoji;
use mostlybot::commands::uwu::KaomojiList;
use mostlybot::commands::uwu::MostlyUwU;
use mostlybot::commands::uwu::MostlyUwUArgs;
use mostlybot::commands::uwu::MostlyUwUArgs::AddKaomoji;
use mostlybot::commands::uwu::MostlyUwUArgs::DisplayIndex;
use mostlybot::commands::uwu::MostlyUwUArgs::DisplayRandom;
use mostlybot::commands::uwu::MostlyUwUArgs::RemoveIndex;
use mostlybot::commands::uwu::MostlyUwUArgs::RemoveKaomoji;
use mostlybot::commands::uwu::MostlyUwUArgs::RemoveLast;
use mostlybot::commands::vods::MostlyVods;
use mostlybot::commands::youtube::MostlyYoutube;
use mostlybot::commands::ChatCommand;
use mostlybot::commands::Handler;
use mostlybot::message::ChatMessage;
use mostlybot::message::Reply;
use mostlybot::message::Response;
use mostlybot::message::User;
use std::time::Duration;

const MESSAGE_ID: &str = "3104f083-2bdb-4d6a-bb5d-30b407876ea4";

/// A message of the broadcaster.
fn message(text: &str) -> ChatMessage {
    ChatMessage {
        broadcaster: User { id: "938429017".to_string(), name: "mostlymaxi".to_string() },
        chatter: User { id: "938429017".to_string(), name: "mostlymaxi".to_string() },
        message_id: MESSAGE_ID.to_string(),
        text: text.to_string(),
        badges: vec!["broadcaster".to_string(), "subscriber".to_string()],
        moderator: false,
    }
}

/// A message of a user without any standing.
fn user_message(text: &str) -> ChatMessage {
    ChatMessage {
        broadcaster: User { id: "938429017".to_string(), name: "mostlymaxi".to_string() },
        chatter: User { id: "".to_string(), name: "".to_string() },
        message_id: "".to_string(),
        text: text.to_string(),
        badges: vec![],
        moderator: false,
    }
}

/// A message of the viewer `name`.
fn viewer_message(text: &str, name: &str) -> ChatMessage {
    ChatMessage {
        broadcaster: User { id: "938429017".to_string(), name: "mostlymaxi".to_string() },
        chatter: User { id: format!("id_{}", name), name: name.to_string() },
        message_id: MESSAGE_ID.to_string(),
        text: text.to_string(),
        badges: vec!["subscriber".to_string()],
        moderator: false,
    }
}

fn answer(body: &str, must_arrive: bool) -> Response {
    Response {
        replies: vec![Reply { body: body.to_string(), parent: Some(MESSAGE_ID.to_string()) }],
        must_arrive,
    }
}

fn announcement(body: &str, must_arrive: bool) -> Response {
    Response { replies: vec![Reply { body: body.to_string(), parent: None }], must_arrive }
}

fn names(list: &[&str]) -> Vec<String> {
    list.iter().map(|name| name.to_string()).collect()
}

#[test]
fn ping_handle() {
    let mut cmd = MostlyPing::new();
    let ctx = message("!ping");
    assert_eq!(cmd.handle(&ctx).unwrap(), answer("pong", true));
}

#[test]
fn pong_handle() {
    let mut cmd = MostlyPong::new();
    let ctx = message("!pong");
    assert_eq!(cmd.handle(&ctx).unwrap(), answer("FeelsWeirdMan", true));
}

#[test]
fn ban_handle() {
    let mut cmd = MostlyBan::new();
    let ctx = message("!ban @mostlymaxi");
    assert_eq!(cmd.handle(&ctx).unwrap(), answer("@mostlymaxi has been banned", true));
}

#[test]
fn ban_handle_many() {
    let mut cmd = MostlyBan::new();
    let ctx = message("!ban rust users Kappa");
    assert_eq!(cmd.handle(&ctx).unwrap(), answer("rust users Kappa has been banned", true));
}

#[test]
fn ban_missing_arg() {
    let mut cmd = MostlyBan::new();
    let ctx = message("!ban ");
    assert_eq!(cmd.handle(&ctx).unwrap_err().to_string(), "No argument provided")
}

#[test]
fn rewrite_handle() {
    let mut cmd = MostlyRewrite::new();
    let ctx = message("!rewrite @mostlymaxi");
    assert_eq!(cmd.handle(&ctx).unwrap(), answer("@mostlymaxi has been rewritten in rust", true));
}

#[test]
fn rewrite_handle_many() {
    let mut cmd = MostlyRewrite::new();
    let ctx = message("!rewrite github actions");
    assert_eq!(
        cmd.handle(&ctx).unwrap(),
        answer("github actions has been rewritten in rust", true)
    );
}

#[test]
fn rewrite_missing_arg() {
    let mut cmd = MostlyRewrite::new();
    let ctx = message("!rewrite ");
    assert_eq!(cmd.handle(&ctx).unwrap_err().to_string(), "No argument provided")
}

#[test]
fn uwu_handle() {
    let mut cmd = MostlyUwU::new();

    let shown = cmd.handle(&message("!uwu")).unwrap();
    assert_eq!(shown.replies.len(), 1);
    assert!(KaomojiList::default().contains(&shown.replies[0].body));
    assert_eq!(
        cmd.handle(&message("!uwu remove UwU")).unwrap(),
        answer("UwU was removed ꃋᴖꃋ", false)
    );
    assert_eq!(
        cmd.handle(&message("!uwu remove UwU")).unwrap(),
        answer("Couldn't find kaomoji to remove (ㅠ‸ㅠ)", false)
    );
    assert_eq!(cmd.handle(&message("!uwu UwU")).unwrap(), answer("UwU was added ( ˶ˆᗜˆ˵ )", false));
    assert_eq!(cmd.handle(&message("!uwu UwU")).unwrap(), answer("UwU Already exists (◔_◔)", false));

    assert_eq!(cmd.handle(&message("!uwu 0")).unwrap(), answer("OwO", false));
    assert_eq!(cmd.handle(&message("!uwu -1")).unwrap(), answer("UwU", false));

    let denied = Response {
        replies: vec![Reply {
            body: "You can't do that. (•̀⤙•́ )".to_string(),
            parent: Some("".to_string()),
        }],
        must_arrive: false,
    };
    assert_eq!(cmd.handle(&user_message("!uwu")).unwrap().replies.len(), 1);
    assert_eq!(cmd.handle(&user_message("!uwu remove UwU")).unwrap(), denied);
    assert_eq!(cmd.handle(&user_message("!uwu UwU")).unwrap(), denied);
}

#[test]
fn constant_answers() {
    let ctx = message("!whatever");
    assert_eq!(
        MostlyCommands::new().handle(&ctx).unwrap(),
        answer("https://docs.rs/mostlybot/latest/mostlybot/commands/index.html", true)
    );
    assert_eq!(
        MostlyBot::new().handle(&ctx).unwrap(),
        answer(
            "contribute to the mostlybot here!: https://github.com/mostlymaxi/twitch-interactive-things/tree/main/twitch/bot",
            true
        )
    );
    assert_eq!(
        MostlyKofi::new().handle(&ctx).unwrap(),
        answer("buy maxi a coffee: https://ko-fi.com/mostlymaxi", false)
    );
    assert_eq!(
        MostlyDiscord::new().handle(&ctx).unwrap(),
        answer("join the SPARCL discord: https://discord.gg/aMAAbZy4QD", false)
    );
    assert_eq!(
        MostlyGit::new().handle(&ctx).unwrap(),
        answer("check out maxi's git: https://github.com/mostlymaxi", false)
    );
    assert_eq!(
        MostlyVods::new().handle(&ctx).unwrap(),
        answer("check out maxi's vods on youtube!: https://www.youtube.com/@mostlyvods", false)
    );
    assert_eq!(
        MostlyYoutube::new().handle(&ctx).unwrap(),
        answer("check out maxi's youtube!: https://www.youtube.com/@mostlymaxi", false)
    );
    assert_eq!(MostlyStatus::new().handle(&ctx).unwrap(), announcement("Bot is offline", false));
}

#[test]
fn names_and_usage_lines() {
    assert_eq!(MostlyPing::names(), names(&["ping"]));
    assert_eq!(MostlyPong::names(), names(&["pong"]));
    assert_eq!(MostlyBan::names(), names(&["ban"]));
    assert_eq!(MostlyRewrite::names(), names(&["rewrite"]));
    assert_eq!(MostlyCommands::names(), names(&["commands", "cmds"]));
    assert_eq!(MostlyBot::names(), names(&["mostlybot", "bot"]));
    assert_eq!(Count::names(), names(&["count"]));
    assert_eq!(MostlyKofi::names(), names(&["kofi", "ko-fi", "donate"]));
    assert_eq!(Progress::names(), names(&["progress"]));
    assert_eq!(MostlyYoutube::names(), names(&["youtube", "yt"]));
    assert_eq!(MostlyGit::names(), names(&["git", "github"]));
    assert_eq!(MostlyDiscord::names(), names(&["discord", "disc"]));
    assert_eq!(MostlyVods::names(), names(&["vods", "vod"]));
    assert_eq!(Lurk::names(), names(&["lurk", "lurkwith", "unlurk", "lurker", "lurkers"]));
    assert_eq!(BotTime::names(), names(&["bottime", "bot_time", "bot-time"]));
    assert_eq!(MostlyUwU::names(), names(&["uwu", "UwU", "owo", "OwO", "kaomoji"]));
    assert_eq!(MostlyStatus::names(), names(&["status", "mostlystatus"]));
    assert_eq!(MostlyJs::names(), names(&["js"]));
    assert_eq!(MostlyPasta::names(), names(&["mostlypasta"]));

    assert_eq!(MostlyPing::new().help(), "usage: !ping");
    assert_eq!(MostlyPong::new().help(), "usage: !pong");
    assert_eq!(MostlyBan::new().help(), "usage: !ban <arguments>");
    assert_eq!(MostlyRewrite::new().help(), "usage: !rewrite <arguments>");
    assert_eq!(MostlyCommands::new().help(), "usage: !commands");
    assert_eq!(MostlyBot::new().help(), "usage: !mostlybot");
    assert_eq!(Count::new().help(), "usage: !count");
    assert_eq!(MostlyKofi::new().help(), "usage: !kofi");
    assert_eq!(Progress::new().help(), "usage: !progress");
    assert_eq!(MostlyYoutube::new().help(), "usage: !youtube");
    assert_eq!(MostlyGit::new().help(), "usage: !git");
    assert_eq!(MostlyDiscord::new().help(), "usage: !discord");
    assert_eq!(MostlyVods::new().help(), "usage: !vods");
    assert_eq!(
        Lurk::new().help(),
        "usage: `!lurk` or `!lurkwith <status>` or `!unlurk` or `!lurker [@username]` or `!lurkers`"
    );
    assert_eq!(BotTime::new().help(), "usage: !bottime");
    assert_eq!(
        MostlyUwU::new().help(),
        "Responds UwU kaomoji\nusage: \"!uwu ?[index]\" - Random kaomoji\n\"!uwu [kaomoji]\" - Add kaomoji\n\"!uwu remove ?[kaomoji / index]\" - Remove kaomoji"
    );
    assert_eq!(MostlyStatus::new().help(), "usage: !status");
    assert_eq!(MostlyJs::new().help(), "usage: !js");
    assert_eq!(MostlyPasta::new().help(), "!mostlypasta <gnu> <linux>");
}

#[test]
fn handler_passes_everything_on() {
    let mut handler = Handler::Status(MostlyStatus::new());
    assert_eq!(handler.names(), names(&["status", "mostlystatus"]));
    assert_eq!(handler.help(), "usage: !status");
    assert_eq!(handler.rate_limit().max_attempts(), 5);
    assert_eq!(handler.rate_limit().duration(), Duration::from_secs(1));
    assert_eq!(handler.handle(&message("!status")).unwrap(), announcement("Bot is offline", false));
    let mut ban = Handler::Ban(MostlyBan::new());
    assert_eq!(ban.rate_limit().max_attempts(), 1);
    assert_eq!(ban.rate_limit().duration(), Duration::from_millis(250));
    assert_eq!(ban.handle(&message("!ban")), Err("No argument provided".to_string()));
    ban.delivered();
    assert_eq!(ban.handle(&message("!ban a")).unwrap(), answer("a has been banned", true));
}

#[test]
fn count_shows_the_number_and_counts_deliveries() {
    let mut count = Count::new();
    assert_eq!(count.current(), 0);
    let ctx = message("!count");
    assert_eq!(count.handle(&ctx).unwrap(), announcement("current count: 0", false));
    // asking alone does not count
    assert_eq!(count.handle(&ctx).unwrap(), announcement("current count: 0", false));
    for _ in 0..12 {
        count.delivered();
    }
    assert_eq!(count.current(), 12);
    assert_eq!(count.handle(&ctx).unwrap(), announcement("current count: 12", false));
}

#[test]
fn pasta_takes_two_arguments() {
    let mut pasta = MostlyPasta::new();
    assert_eq!(
        pasta.handle(&message("!mostlypasta GNU Linux")).unwrap(),
        announcement(
            "\nI'd just like to interject for a moment. What you're refering to as Linux, is in fact, GNU/Linux, or as I've recently taken to calling it, GNU plus Linux. Linux is not an operating system unto itself, but rather another free component of a fully functioning GNU system made useful by the GNU corelibs, shell utilities and vital system components comprising a full OS as defined by POSIX.",
            false
        )
    );
    assert_eq!(pasta.handle(&message("!mostlypasta")), Err("not enough arguments".to_string()));
    assert_eq!(pasta.handle(&message("!mostlypasta a")), Err("not enough arguments".to_string()));
    assert_eq!(pasta.handle(&message("!mostlypasta a b c")), Err("too many arguments".to_string()));
    assert_eq!(MostlyPasta::write_pasta("a", "b").matches('a').count() > 4, true);
}

#[test]
fn bot_time_tells_seconds_minutes_and_hours() {
    assert_eq!(BotTime::uptime_message(0), "Bot has been running for 0 seconds.");
    assert_eq!(BotTime::uptime_message(59), "Bot has been running for 59 seconds.");
    assert_eq!(BotTime::uptime_message(60), "Bot has been running for 1 minutes.");
    assert_eq!(BotTime::uptime_message(3599), "Bot has been running for 59 minutes.");
    assert_eq!(BotTime::uptime_message(3600), "Bot has been running for 1 hours.");
    assert_eq!(BotTime::uptime_message(7325), "Bot has been running for 2 hours.");
    let mut cmd = BotTime::new();
    assert_eq!(
        cmd.handle(&message("!bottime")).unwrap(),
        answer("Bot has been running for 0 seconds.", true)
    );
}

#[test]
fn progress_is_below_a_hundred_percent_with_six_decimals() {
    assert_eq!(Progress::progress_message(0), "Progress: 0.000000% done!");
    assert_eq!(Progress::progress_message(1_000_001), "Progress: 1.000001% done!");
    assert_eq!(Progress::progress_message(12_345_678), "Progress: 12.345678% done!");
    assert_eq!(Progress::progress_message(99_999_999), "Progress: 99.999999% done!");
    let mut cmd = Progress::new();
    let mut seen = Vec::new();
    for _ in 0..50 {
        let response = cmd.handle(&message("!progress")).unwrap();
        assert!(response.must_arrive);
        assert_eq!(response.replies.len(), 1);
        assert_eq!(response.replies[0].parent, Some(MESSAGE_ID.to_string()));
        let body = &response.replies[0].body;
        let number = body
            .strip_prefix("Progress: ")
            .and_then(|rest| rest.strip_suffix("% done!"))
            .expect("a progress report");
        let (whole, part) = number.split_once('.').expect("a decimal point");
        assert!(whole.parse::<u32>().unwrap() < 100);
        assert_eq!(part.len(), 6);
        assert!(part.chars().all(|c| c.is_ascii_digit()));
        seen.push(body.clone());
    }
    seen.sort();
    seen.dedup();
    // chance does not pick the same number fifty times
    assert!(seen.len() > 1);
}

#[test]
fn js_says_that_something_does_not_exist() {
    let sayings = [
        "\"Undefined\" does not exist",
        "\"[object Object]\" does not exist",
        "\"x === y\" does not exist",
    ];
    assert_eq!(MostlyJs::msgs(), names(&["Undefined", "[object Object]", "x === y"]));
    assert_eq!(MostlyJs::answer(&message("!js"), "NaN"), answer("\"NaN\" does not exist", true));
    let mut cmd = MostlyJs::new();
    let mut seen = Vec::new();
    for _ in 0..200 {
        let response = cmd.handle(&message("!js")).unwrap();
        assert!(response.must_arrive);
        assert_eq!(response.replies.len(), 1);
        assert!(sayings.contains(&response.replies[0].body.as_str()));
        seen.push(response.replies[0].body.clone());
    }
    seen.sort();
    seen.dedup();
    assert!(seen.len() > 1);
}

#[test]
fn lurk_and_unlurk() {
    let mut lurk = Lurk::new();
    let hello = viewer_message("!lurk", "viewer");
    assert_eq!(lurk.handle(&hello).unwrap(), answer("have a nice lurk!", true));
    assert_eq!(
        lurk.handle(&hello).unwrap(),
        answer(
            "you are already lurking silly! to unlurk do `!unlurk` or view your lurk-status with `!lurker viewer`",
            true
        )
    );
    assert_eq!(
        lurk.handle(&viewer_message("!lurker", "viewer")).unwrap(),
        announcement("@viewer is lurking with no status", true)
    );
    assert_eq!(
        lurk.handle(&viewer_message("!unlurk", "viewer")).unwrap(),
        answer("welcome back! hope you were productive during your lurk!", true)
    );
    assert_eq!(
        lurk.handle(&viewer_message("!unlurk", "viewer")).unwrap(),
        answer("you weren't lurking but welcome back anyway!", true)
    );
    assert_eq!(
        lurk.handle(&viewer_message("!lurker", "viewer")).unwrap(),
        announcement("you're not lurking", true)
    );
    assert!(lurk.lurkers().is_empty());
}

#[test]
fn lurk_with_a_status() {
    let mut lurk = Lurk::new();
    assert_eq!(
        lurk.handle(&viewer_message("!lurkwith writing   proofs", "viewer")).unwrap(),
        answer("have a nice lurk!", true)
    );
    assert_eq!(
        lurk.lurkers(),
        &vec![Lurker { name: "viewer".to_string(), status: Some(" writing proofs".to_string()) }]
    );
    assert_eq!(
        lurk.handle(&viewer_message("!lurkwith coffee", "viewer")).unwrap(),
        answer("lurk status successfully updated!", true)
    );
    assert_eq!(
        lurk.handle(&viewer_message("!lurker", "viewer")).unwrap(),
        announcement("@viewer is lurking  coffee", true)
    );
    // a plain lurk takes the status away again
    assert!(lurk.handle(&viewer_message("!lurk", "viewer")).is_ok());
    assert_eq!(lurk.lurkers(), &vec![Lurker { name: "viewer".to_string(), status: None }]);
    assert!(lurk.handle(&viewer_message("!lurkwith tea", "viewer")).is_ok());
    assert_eq!(
        lurk.handle(&viewer_message("!unlurk", "viewer")).unwrap(),
        answer("welcome back! hope you were productive  tea", true)
    );
}

#[test]
fn lurkers_are_told_in_the_order_they_began() {
    let mut lurk = Lurk::new();
    assert_eq!(
        lurk.handle(&viewer_message("!lurkers", "viewer")).unwrap(),
        announcement("Lurkers: <none>", true)
    );
    for name in ["zoe", "adam", "mia"] {
        assert!(lurk.handle(&viewer_message("!lurk", name)).is_ok());
    }
    assert!(lurk.handle(&viewer_message("!lurkwith again", "adam")).is_ok());
    assert_eq!(
        lurk.handle(&viewer_message("!lurkers", "viewer")).unwrap(),
        announcement("Lurkers: @zoe, @adam, @mia", true)
    );
    assert!(lurk.handle(&viewer_message("!unlurk", "zoe")).is_ok());
    assert_eq!(
        lurk.handle(&viewer_message("!lurkers", "viewer")).unwrap(),
        announcement("Lurkers: @adam, @mia", true)
    );
    assert_eq!(lurk.find("mia"), Some(1));
    assert_eq!(lurk.find("zoe"), None);
    assert_eq!(lurk.insert("zoe", None), None);
    assert_eq!(lurk.insert("adam", None), Some(Some(" again".to_string())));
    assert_eq!(lurk.remove("mia"), Some(None));
    assert_eq!(lurk.remove("mia"), None);
    assert_eq!(
        lurk.handle(&viewer_message("!lurkers", "viewer")).unwrap(),
        announcement("Lurkers: @adam, @zoe", true)
    );
}

#[test]
fn lurker_asked_by_name_is_looked_up_with_the_blank_before_it() {
    let mut lurk = Lurk::new();
    assert!(lurk.handle(&viewer_message("!lurk", "adam")).is_ok());
    // the name that is asked for begins with the blank that joins the words
    assert_eq!(
        lurk.handle(&viewer_message("!lurker adam", "viewer")).unwrap(),
        announcement("you're not lurking", true)
    );
    assert_eq!(
        lurk.handle(&viewer_message("!lurker @adam", "viewer")).unwrap(),
        announcement("you're not lurking", true)
    );
    // a sender whose own name begins with an @ is asked for without it
    assert_eq!(
        lurk.handle(&viewer_message("!lurker", "@adam")).unwrap(),
        announcement("@adam is lurking with no status", true)
    );
    assert_eq!(
        lurk.handle(&viewer_message("!lurker", "")),
        Err("chatter.name received empty".to_string())
    );
}

#[test]
fn lurk_fails_on_other_first_words() {
    let mut lurk = Lurk::new();
    assert_eq!(
        lurk.handle(&viewer_message("", "viewer")),
        Err("invoked lurk command without any content in the message text".to_string())
    );
    let unknown = "invoked lurk command without first word being any of the commands [\"lurk\", \"lurkwith\", \"unlurk\", \"lurker\", \"lurkers\"]";
    assert_eq!(lurk.handle(&viewer_message("!!lurk", "viewer")), Err(unknown.to_string()));
    assert_eq!(lurk.handle(&viewer_message("!Lurk", "viewer")), Err(unknown.to_string()));
    assert_eq!(lurk.handle(&viewer_message("lurk", "viewer")), Err(unknown.to_string()));
    assert_eq!(
        unknown,
        format!(
            "invoked lurk command without first word being any of the commands {:?}",
            Lurk::names()
        )
    );
}

#[test]
fn uwu_arguments() {
    assert_eq!(MostlyUwUArgs::parse("!uwu"), DisplayRandom);
    assert_eq!(MostlyUwUArgs::parse("!uwu    "), DisplayRandom);
    assert_eq!(MostlyUwUArgs::parse("!uwu\t3"), DisplayRandom);
    assert_eq!(MostlyUwUArgs::parse("!uwu 3"), DisplayIndex { index: 3 });
    assert_eq!(MostlyUwUArgs::parse("!uwu  -1  "), DisplayIndex { index: -1 });
    assert_eq!(MostlyUwUArgs::parse("!uwu +7 and more"), DisplayIndex { index: 7 });
    assert_eq!(MostlyUwUArgs::parse("!uwu remove"), RemoveLast);
    assert_eq!(MostlyUwUArgs::parse("!uwu REMOVE"), RemoveLast);
    assert_eq!(MostlyUwUArgs::parse("!uwu ReMoVe 2"), RemoveIndex { index: 2 });
    assert_eq!(MostlyUwUArgs::parse("!uwu remove -2"), RemoveIndex { index: -2 });
    assert_eq!(
        MostlyUwUArgs::parse("!uwu remove (^_^) !"),
        RemoveKaomoji { kaomoji: "(^_^) !".to_string() }
    );
    assert_eq!(
        MostlyUwUArgs::parse("!uwu remove  2"),
        RemoveKaomoji { kaomoji: "2".to_string() }
    );
    assert_eq!(
        MostlyUwUArgs::parse("!uwu removed"),
        AddKaomoji { kaomoji: "removed".to_string() }
    );
    assert_eq!(
        MostlyUwUArgs::parse("!uwu  ( ˶°ㅁ°) !! "),
        AddKaomoji { kaomoji: "( ˶°ㅁ°) !!".to_string() }
    );
    assert_eq!(
        MostlyUwUArgs::parse("!uwu 99999999999999999999999"),
        AddKaomoji { kaomoji: "99999999999999999999999".to_string() }
    );
}

#[test]
fn kaomoji_list_operations() {
    let mut list = KaomojiList::from_vec(vec![
        Kaomoji::new("a", "1"),
        Kaomoji::new("b", "2"),
        Kaomoji::new_dummy("c"),
    ]);
    assert_eq!(list.count(), 3);
    assert_eq!(Kaomoji::default(), Kaomoji::new("UwU", "938429017"));
    assert_eq!(Kaomoji::new_dummy("c").user_id(), "938429017");
    assert_eq!(Kaomoji::new("a", "1").copy(), Kaomoji::new("a", "1"));
    assert_eq!(list.get_index(0), Some(Kaomoji::new("a", "1")));
    assert_eq!(list.get_index(2).unwrap().string(), "c");
    assert_eq!(list.get_index(3), None);
    assert_eq!(list.get_index(-1).unwrap().string(), "c");
    assert_eq!(list.get_index(-3).unwrap().string(), "a");
    assert_eq!(list.get_index(-4), None);
    assert_eq!(list.get_index(isize::MIN), None);
    assert_eq!(list.get_index(isize::MAX), None);
    assert!(list.contains("b"));
    assert!(!list.contains("B"));
    list.add(Kaomoji::new("b", "9"));
    assert_eq!(list.count(), 3);
    list.add(Kaomoji::new("d", "9"));
    assert_eq!(list.count(), 4);
    assert_eq!(list.get_index(-1), Some(Kaomoji::new("d", "9")));
    assert_eq!(list.remove_kaomoji("b"), Some(Kaomoji::new("b", "2")));
    assert_eq!(list.remove_kaomoji("b"), None);
    assert_eq!(list.remove_index(-3), Some(Kaomoji::new("a", "1")));
    assert_eq!(list.remove_index(5), None);
    assert_eq!(list.remove_index(-5), None);
    assert_eq!(list.remove_last(), Some(Kaomoji::new("d", "9")));
    assert_eq!(list.entries(), &vec![Kaomoji::new_dummy("c")]);
    assert_eq!(list.random(), Kaomoji::new_dummy("c"));
    assert_eq!(list.remove_index(0), Some(Kaomoji::new_dummy("c")));
    assert_eq!(list.remove_last(), None);
    assert_eq!(list.random(), Kaomoji::default());
}

#[test]
fn kaomoji_list_of_the_house() {
    let list = KaomojiList::default();
    assert_eq!(list.count(), 22);
    assert_eq!(list.get_index(0), Some(Kaomoji::new_dummy("UwU")));
    assert_eq!(list.get_index(5), Some(Kaomoji::new_dummy("(˶˃ ᵕ ˂˶) .ᐟ.ᐟ")));
    assert_eq!(list.get_index(21), Some(Kaomoji::new_dummy(" ˶ᵔ ᵕ ᵔ˶ ")));
    let mut seen = Vec::new();
    for _ in 0..200 {
        let picked = list.random();
        assert!(list.contains(picked.string()));
        seen.push(picked.string().clone());
    }
    seen.sort();
    seen.dedup();
    assert!(seen.len() > 1);
}

#[test]
fn uwu_permissions() {
    let mut cmd = MostlyUwU::with_list(KaomojiList::from_vec(vec![Kaomoji::new_dummy("x")]));
    assert!(!cmd.unsaved());
    let denied = "You can't do that. (•̀⤙•́ )";
    // a viewer may look but not touch
    let viewer = viewer_message("!uwu 0", "viewer");
    assert_eq!(cmd.handle(&viewer).unwrap(), answer("x", false));
    for text in ["!uwu :)", "!uwu remove", "!uwu remove 0", "!uwu remove x"] {
        assert_eq!(cmd.handle(&viewer_message(text, "viewer")).unwrap(), answer(denied, false));
    }
    assert!(!cmd.unsaved());
    // a vip may add but not remove
    let mut vip = viewer_message("!uwu :)", "vip");
    vip.badges.push("vip".to_string());
    assert!(has_badge(&vip.badges, "vip"));
    assert!(!has_badge(&vip.badges, "VIP"));
    assert_eq!(cmd.handle(&vip).unwrap(), answer(":) was added ( ˶ˆᗜˆ˵ )", false));
    assert!(cmd.unsaved());
    cmd.saved();
    assert!(!cmd.unsaved());
    assert_eq!(cmd.list().get_index(-1), Some(Kaomoji::new(":)", "id_vip")));
    vip.text = "!uwu remove".to_string();
    assert_eq!(cmd.handle(&vip).unwrap(), answer(denied, false));
    // a moderator may do both
    let mut moderator = viewer_message("!uwu remove 5", "mod");
    moderator.moderator = true;
    assert!(MostlyUwU::is_privileged(&moderator));
    assert!(!MostlyUwU::is_privileged(&viewer));
    assert_eq!(
        cmd.handle(&moderator).unwrap(),
        answer("Index out of bounds (2), oh no (╥﹏╥)", false)
    );
    moderator.text = "!uwu Remove".to_string();
    assert_eq!(cmd.handle(&moderator).unwrap(), answer(":) was removed .‸.", false));
    assert!(cmd.unsaved());
    moderator.text = "!uwu remove 0".to_string();
    assert_eq!(cmd.handle(&moderator).unwrap(), answer("x was removed (ㅠ﹏ㅠ)", false));
    moderator.text = "!uwu remove".to_string();
    assert_eq!(
        cmd.handle(&moderator).unwrap(),
        answer("There's no kaomoji, what did you do? (ó﹏ò｡)", false)
    );
    moderator.text = "!uwu".to_string();
    assert_eq!(cmd.handle(&moderator).unwrap(), answer("UwU", false));
    moderator.text = "!uwu 7".to_string();
    assert_eq!(
        cmd.handle(&moderator).unwrap(),
        answer("Index out of bounds (0), oh no (╥﹏╥)", false)
    );
    // the broadcaster in person counts only with an id
    assert!(MostlyUwU::is_privileged(&message("!uwu")));
    assert!(!MostlyUwU::is_privileged(&user_message("!uwu")));
}
