use dbus::arg::messageitem::MessageItem;
use dbus::arg::Variant;
use dbus::Message;
use swaddle::bus::valid_bus_name;
use swaddle::players::{
    list_media_players, list_names_call, media_players, playback_call, players_of_names,
    reply_says_playing, status_says_playing, with_playback_arguments,
};
use swaddle::scan::step_of_call;
use swaddle::{PlaybackScan, PlayersError, ScanStep};

fn reply() -> Message {
    Message::new_method_call("a.b", "/", "a.b", "Reply").unwrap()
}

fn strings(list: &[&str]) -> Vec<String> {
    list.iter().map(|s| s.to_string()).collect()
}

fn header(message: &Message) -> Vec<String> {
    vec![
        message.destination().unwrap().to_string(),
        message.path().unwrap().to_string(),
        message.interface().unwrap().to_string(),
        message.member().unwrap().to_string(),
    ]
}

#[test]
fn call_for_all_names() {
    let call = list_names_call().unwrap();
    assert_eq!(
        header(&call),
        [
            "org.freedesktop.DBus",
            "/org/freedesktop/DBus",
            "org.freedesktop.DBus",
            "ListNames"
        ]
    );
    assert!(call.get_items().is_empty());
}

#[test]
fn call_for_the_playback_status() {
    let call = playback_call("org.mpris.MediaPlayer2.vlc").unwrap();
    assert_eq!(
        header(&call),
        [
            "org.mpris.MediaPlayer2.vlc",
            "/org/mpris/MediaPlayer2",
            "org.freedesktop.DBus.Properties",
            "Get"
        ]
    );
    assert_eq!(
        call.get_items(),
        vec![
            MessageItem::Str("org.mpris.MediaPlayer2.Player".to_string()),
            MessageItem::Str("PlaybackStatus".to_string()),
        ]
    );
}

#[test]
fn arguments_of_the_call_for_the_playback_status() {
    let full = with_playback_arguments(Ok(reply())).unwrap();
    assert_eq!(header(&full), header(&reply()));
    assert_eq!(
        full.get_items(),
        vec![
            MessageItem::Str("org.mpris.MediaPlayer2.Player".to_string()),
            MessageItem::Str("PlaybackStatus".to_string()),
        ]
    );
    let reason = with_playback_arguments(Err("no memory".to_string())).unwrap_err();
    assert_eq!(reason, "no memory");
}

#[test]
fn bus_names() {
    let long = "a.".to_string() + &"b".repeat(253);
    let too_long = "a.".to_string() + &"b".repeat(254);
    let far_too_long = "a.".to_string() + &"b".repeat(70_000);
    for name in [
        "org.mpris.MediaPlayer2.vlc",
        "org.mpris.MediaPlayer2.vlc.instance42",
        "a-b._c",
        "-a.b",
        ":1.42",
        ":",
        ":.a",
        long.as_str(),
    ] {
        assert!(valid_bus_name(name), "{}", name);
    }
    for name in [
        "",
        "org",
        ".org.a",
        "org.a.",
        "org..a",
        "org.1a",
        "1org.a",
        "org.a b",
        "org.\u{e9}a",
        "org.a\0",
        "org.a:b",
        ":1..2",
        ":1.",
        too_long.as_str(),
        far_too_long.as_str(),
    ] {
        assert!(!valid_bus_name(name), "{}", name);
    }
}

#[test]
fn players_in_the_order_of_the_names() {
    let names = strings(&[
        "org.mpris.MediaPlayer2.b",
        "org.mpris.MediaPlayer2",
        "xorg.mpris.MediaPlayer2.x",
        "org.mpris.MediaPlayer2.",
        "org.mpris.MediaPlayer2.a",
        "org.mpris.MediaPlayer2.b",
    ]);
    let expected = strings(&[
        "org.mpris.MediaPlayer2.b",
        "org.mpris.MediaPlayer2.",
        "org.mpris.MediaPlayer2.a",
        "org.mpris.MediaPlayer2.b",
    ]);
    let players = media_players(&names);
    assert_eq!(players, expected);
    assert_eq!(media_players(&players), expected);
    assert!(media_players(&Vec::new()).is_empty());
}

#[test]
fn listing_errors() {
    let error = list_media_players(Err("no bus".to_string())).unwrap_err();
    assert!(matches!(error, PlayersError::Reply(_)));
    assert_eq!(error.message(), "no bus");

    for answer in [reply(), reply().append1("org.mpris.MediaPlayer2.vlc")] {
        let error = list_media_players(Ok(answer)).unwrap_err();
        assert!(matches!(error, PlayersError::NoNames));
        assert_eq!(error.message(), "Failed to get names from response");
    }

    assert!(players_of_names(None).is_err());
    assert_eq!(PlayersError::Call("no memory".to_string()).message(), "no memory");
}

#[test]
fn listing_from_an_answer() {
    let names = strings(&["org.mpris.MediaPlayer2.vlc", ":1.7", "org.a.b"]);
    let players = list_media_players(Ok(reply().append1(names))).unwrap();
    assert_eq!(players, strings(&["org.mpris.MediaPlayer2.vlc"]));

    // An array of anything else holds no names.
    let players = list_media_players(Ok(reply().append1(vec![1u32, 2]))).unwrap();
    assert!(players.is_empty());
}

#[test]
fn what_counts_as_playing() {
    assert!(reply_says_playing(&reply().append1(Variant("Playing"))));
    assert!(reply_says_playing(&reply().append1(Variant("Playing")).append1(7u8)));
    assert!(!reply_says_playing(&reply()));
    assert!(!reply_says_playing(&reply().append1("Playing")));
    assert!(!reply_says_playing(&reply().append1(Variant("Paused"))));
    assert!(!reply_says_playing(&reply().append1(Variant("playing"))));
    assert!(!reply_says_playing(&reply().append1(Variant(1i32))));
    assert!(!reply_says_playing(&reply().append1(Variant(Variant("Playing")))));
    assert!(!reply_says_playing(&reply().append1(7u8).append1(Variant("Playing"))));
}

#[test]
fn what_status_counts_as_playing() {
    let says = |status: &str| status_says_playing(Some(status.to_string()));
    assert!(says("Playing"));
    assert!(!says("Paused"));
    assert!(!says("Stopped"));
    assert!(!says("Playing "));
    assert!(!says(""));
    assert!(!status_says_playing(None));
}

#[test]
fn arguments_of_other_types_say_nothing() {
    assert!(!reply_says_playing(&reply().append1(vec!["Playing"])));
    assert!(!reply_says_playing(&reply().append1(("Playing",))));
    assert!(!reply_says_playing(&reply().append1(vec![Variant("Playing")])));
    assert!(!reply_says_playing(&reply().append1(Variant(vec!["Playing"]))));
}

fn asked(step: ScanStep) -> String {
    match step {
        ScanStep::Ask(call) => call.destination().unwrap().to_string(),
        _ => panic!("a player should be asked"),
    }
}

#[test]
fn a_round_ends_with_the_first_player_that_plays() {
    let mut scan = PlaybackScan::new(Ok(strings(&["p.a", "p.b", "p.c", "p.d"])));
    assert_eq!(asked(scan.next_step()), "p.a");
    scan.on_reply(Err("timeout".to_string()));
    assert_eq!(asked(scan.next_step()), "p.b");
    scan.on_reply(Ok(reply().append1(Variant("Paused"))));
    assert_eq!(asked(scan.next_step()), "p.c");
    scan.on_reply(Ok(reply().append1(Variant("Playing"))));
    assert!(matches!(scan.next_step(), ScanStep::Done(true)));
    assert!(matches!(scan.next_step(), ScanStep::Done(true)));
    assert_eq!(scan.asked, 3);
}

#[test]
fn a_round_without_a_playing_player_asks_all() {
    let mut scan = PlaybackScan::new(Ok(strings(&["p.a", "p.b"])));
    for name in ["p.a", "p.b"] {
        assert_eq!(asked(scan.next_step()), name);
        scan.on_reply(Ok(reply().append1(Variant("Stopped"))));
    }
    assert!(matches!(scan.next_step(), ScanStep::Done(false)));

    let mut scan = PlaybackScan::new(Err(PlayersError::NoNames));
    assert!(matches!(scan.next_step(), ScanStep::Done(false)));
}

#[test]
fn a_name_that_is_none_is_reported() {
    let mut scan = PlaybackScan::new(Ok(strings(&["not a name", "p.b"])));
    match scan.next_step() {
        ScanStep::BadName(name) => assert_eq!(name, "not a name"),
        _ => panic!("the name should be reported"),
    }
    assert_eq!(asked(scan.next_step()), "p.b");
}

#[test]
fn a_call_that_cannot_be_made_is_passed_over() {
    match step_of_call(Err("no memory".to_string())) {
        ScanStep::Skip(reason) => assert_eq!(reason, "no memory"),
        _ => panic!("the player should be passed over"),
    }
    assert!(matches!(step_of_call(Ok(reply())), ScanStep::Ask(_)));
}
