use mostlybot::stream::before;
use mostlybot::stream::clean;
use mostlybot::stream::count_recent;
use mostlybot::stream::gives_way;
use mostlybot::stream::is_spelling;
use mostlybot::stream::monitor_command;
use mostlybot::stream::redeem_command;
use mostlybot::stream::CommandLine;
use mostlybot::stream::CommandRedeem;
use mostlybot::stream::LatestStreamInfo;
use mostlybot::stream::FOLLOW_SECS;
use mostlybot::stream::MESSAGE_MEMORY_SECS;
use mostlybot::stream::RAID_SECS;

fn command(program: &str, args: &[&str]) -> CommandLine {
    CommandLine {
        program: program.to_string(),
        args: args.iter().map(|arg| arg.to_string()).collect(),
    }
}

#[test]
fn seconds_before_stop_at_the_first() {
    assert_eq!(before(100, 15), 85);
    assert_eq!(before(15, 15), 0);
    assert_eq!(before(3, 15), 0);
    assert_eq!(before(u64::MAX, 1), u64::MAX - 1);
    assert_eq!((MESSAGE_MEMORY_SECS, FOLLOW_SECS, RAID_SECS), (1800, 60, 300));
}

#[test]
fn recent_messages_are_counted() {
    let tail = vec![0, 10, 84, 85, 86, 99, 100];
    // after second 85
    assert_eq!(count_recent(&tail, 100, 15), 3);
    assert_eq!(count_recent(&tail, 100, 30), 5);
    assert_eq!(count_recent(&tail, 100, 100), 6);
    assert_eq!(count_recent(&tail, 100, 1000), 6);
    assert_eq!(count_recent(&tail, 100, 0), 0);
    assert_eq!(count_recent(&vec![], 100, 15), 0);
    // in the first seconds of the stream the message of second 0 never counts
    assert_eq!(count_recent(&vec![0, 0, 1], 5, 15), 1);
}

#[test]
fn old_messages_are_forgotten() {
    let mut tail = vec![5, 200, 199, 3000, 201, 0];
    clean(&mut tail, 2000);
    assert_eq!(tail, vec![3000, 201]);
    clean(&mut tail, 2001);
    assert_eq!(tail, vec![3000]);
    let mut early = vec![0, 1, 2];
    clean(&mut early, 100);
    assert_eq!(early, vec![1, 2]);
}

#[test]
fn counters_are_refreshed() {
    let mut info = LatestStreamInfo::default();
    assert_eq!(info.msgs_per_60s, 0);
    info.on_follow(950);
    info.on_raid(900);
    info.waters_per_10m = 7;
    let tail = vec![900, 950, 980, 990, 999];
    info.refresh(&tail, 1000);
    let expected = LatestStreamInfo {
        msgs_per_15s: 2,
        msgs_per_30s: 3,
        msgs_per_60s: 4,
        raid: 900,
        follow: 950,
        redeem: 0,
        waters_per_10m: 7,
    };
    assert_eq!(info, expected);
    // the follow is shown for a minute, the raid for five
    info.refresh(&tail, 1010);
    assert_eq!(info.follow, 950);
    info.refresh(&tail, 1011);
    assert_eq!(info.follow, 0);
    assert_eq!(info.raid, 900);
    assert_eq!(info.msgs_per_15s, 1);
    info.refresh(&tail, 1200);
    assert_eq!(info.raid, 900);
    info.refresh(&tail, 1201);
    assert_eq!(info.raid, 0);
    assert_eq!(info.msgs_per_60s, 0);
}

#[test]
fn redeems_are_known_by_number() {
    let mut info = LatestStreamInfo::default();
    for (title, number) in
        [("mostlytrain", 1), ("mostlypride", 2), ("mostlymusic", 3), ("mostlypackets", 4)]
    {
        info.on_redeem(title);
        assert_eq!(info.redeem, number);
    }
    for title in ["MostlyTrain", "mostlycpu", "", "mostlytrain "] {
        info.on_redeem(title);
        assert_eq!(info.redeem, 4);
    }
}

#[test]
fn numbers_put_programs_on_the_screen() {
    assert_eq!(redeem_command(1), command("sl-loop", &[]));
    assert_eq!(redeem_command(2), command("hyfetch", &["--june"]));
    assert_eq!(redeem_command(3), command("cava", &[]));
    assert_eq!(redeem_command(4), command("btm", &["-e", "--default_widget_type", "net"]));
    assert_eq!(redeem_command(5), command("btm", &["-e", "--default_widget_type", "cpu"]));
    assert_eq!(redeem_command(0), command("cava", &[]));
    assert_eq!(redeem_command(6), command("cava", &[]));
    assert_eq!(monitor_command("mem"), command("btm", &["-e", "--default_widget_type", "mem"]));
    // the two monitors are the same program, so one does not give way to the other
    assert!(!gives_way(&redeem_command(4), &redeem_command(5)));
    assert!(gives_way(&redeem_command(1), &redeem_command(3)));
    let mut built = CommandLine::new("kill");
    built.arg("--signal");
    built.arg("INT");
    assert_eq!(built, command("kill", &["--signal", "INT"]));
}

#[test]
fn redeems_go_by_their_names_in_any_case() {
    let all = [
        ("MostlyTrain", CommandRedeem::MostlyTrain, command("sl-loop", &[])),
        (
            "MostlyPackets",
            CommandRedeem::MostlyPackets,
            command("btm", &["-e", "--default_widget_type", "net"]),
        ),
        ("MostlyPride", CommandRedeem::MostlyPride, command("hyfetch", &["--june"])),
        (
            "MostlyCPU",
            CommandRedeem::MostlyCPU,
            command("btm", &["-e", "--default_widget_type", "cpu"]),
        ),
        ("MostlyMusic", CommandRedeem::MostlyMusic, command("cava", &[])),
        ("MostlyWater", CommandRedeem::MostlyWater, command("asciifish", &[])),
        ("MostlyStretch", CommandRedeem::MostlyStretch, command("cbonsai", &["-li"])),
        ("MostlyKeyboard", CommandRedeem::MostlyKeyboard, command("genact", &[])),
        ("MostlyStfu", CommandRedeem::MostlyStfu, command("cbonsai", &["-li"])),
        ("MostlyMario", CommandRedeem::MostlyMario, command("pipes.sh", &[])),
        ("MostlyNeo", CommandRedeem::MostlyNeo, command("cmatrix", &[])),
        ("MostlyRedpill", CommandRedeem::MostlyRedpill, command("cmatrix", &[])),
    ];
    for (name, redeem, program) in all {
        assert_eq!(CommandRedeem::from_title(name), Some(redeem));
        assert_eq!(CommandRedeem::from_title(&name.to_lowercase()), Some(redeem));
        assert_eq!(CommandRedeem::from_title(&name.to_uppercase()), Some(redeem));
        assert_eq!(CommandRedeem::from_title(&format!("{} ", name)), None);
        assert_eq!(redeem.command_line(), program);
    }
    assert_eq!(CommandRedeem::from_title("mOsTlYcPu"), Some(CommandRedeem::MostlyCPU));
    assert_eq!(CommandRedeem::from_title(""), None);
    assert_eq!(CommandRedeem::from_title("mostly"), None);
    assert_eq!(CommandRedeem::from_title("mostlyneo!"), None);
    // only the letters of the alphabet have two cases here
    assert_eq!(CommandRedeem::from_title("mostlyſtfu"), None);
    let title: Vec<char> = "MoStLy".chars().collect();
    assert!(is_spelling(&title, "mostly", "MOSTLY"));
    assert!(!is_spelling(&title, "mostlx", "MOSTLX"));
    assert!(!is_spelling(&title, "mostl", "MOSTL"));
}
