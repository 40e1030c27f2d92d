use swaddle::flows::is_audio_flow;
use swaddle::speaker::ha_speaker_call;
use swaddle::{
    CommandLine, ConfigError, CycleInput, GlobalObject, HaSettings, IdleApp, InhibitState,
    MonitorAction, MonitorEvent, NodeState, PipeWireState, ServerSettings, Settings, SpeakerCommand,
    SpeakerInput, SpeakerState, SwayIdleSettings, SwayidleAction,
};

const SECOND: u128 = 1_000_000_000;

fn ha(enabled: bool) -> HaSettings {
    HaSettings {
        host: "http://192.168.1.1:8123".to_string(),
        token: "your-long-lived-access-token".to_string(),
        entity: "switch.my_speaker".to_string(),
        enabled,
    }
}

fn swayidle(enabled: bool) -> SwayIdleSettings {
    SwayIdleSettings {
        config_path: "/home/you/.config/sway/swayidle.conf".to_string(),
        enabled,
    }
}

fn app(ha: Option<HaSettings>, managed: bool) -> IdleApp<u32> {
    let settings = Settings {
        debug: false,
        server: ServerSettings {
            inhibit_duration: 25,
            sleep_duration: 5,
        },
        ha,
        swayidle: swayidle(managed),
    };
    IdleApp::new(Ok(settings)).unwrap()
}

fn input(has_audio: bool, mpris_playing: bool, secs: u128) -> CycleInput {
    CycleInput {
        has_audio,
        mpris_playing,
        now: secs * SECOND,
    }
}

fn node(id: u32, class: Option<&str>) -> GlobalObject {
    GlobalObject {
        id,
        is_node: true,
        media_class: class.map(|c| c.to_string()),
    }
}

fn assert_command(command: &CommandLine, program: &str, args: &[&str]) {
    assert_eq!(command.program, program);
    assert_eq!(command.args, args);
}

#[test]
fn without_settings_there_is_no_app() {
    let app: Result<IdleApp<u32>, ConfigError> =
        IdleApp::new(Err(ConfigError::NotFound("/x".to_string())));
    assert_eq!(app.unwrap_err().message(), "Config file not found: /x");
}

#[test]
fn which_objects_are_flows() {
    assert!(is_audio_flow(&node(1, Some("Stream/Output/Audio"))));
    assert!(!is_audio_flow(&node(1, Some("Stream/Input/Audio"))));
    assert!(!is_audio_flow(&node(1, Some("Stream/Output/Audio/x"))));
    assert!(!is_audio_flow(&node(1, None)));
    let device = GlobalObject {
        is_node: false,
        ..node(1, Some("Stream/Output/Audio"))
    };
    assert!(!is_audio_flow(&device));
}

#[test]
fn the_last_event_decides_about_a_flow() {
    let mut state = PipeWireState::default();
    assert!(!state.has_active_audio());

    let appeared = MonitorEvent::Global(node(7, Some("Stream/Output/Audio")));
    assert_eq!(state.observe(&appeared), MonitorAction::Listen);
    assert!(!state.has_active_audio());

    let other = MonitorEvent::Global(node(8, Some("Audio/Sink")));
    assert_eq!(state.observe(&other), MonitorAction::Ignore);

    for (node_state, active) in [
        (NodeState::Creating, false),
        (NodeState::Idle, true),
        (NodeState::Running, true),
        (NodeState::Suspended, false),
        (NodeState::Running, true),
        (NodeState::Error, false),
    ] {
        let event = MonitorEvent::NodeInfo(7, node_state);
        assert_eq!(state.observe(&event), MonitorAction::Ignore);
        assert_eq!(state.has_active_audio(), active);
    }

    state.observe(&MonitorEvent::NodeInfo(7, NodeState::Running));
    state.observe(&MonitorEvent::NodeInfo(9, NodeState::Running));
    state.observe(&MonitorEvent::GlobalRemoved(7));
    assert!(state.has_active_audio());
    assert!(state.active_flows.contains(&9) && !state.active_flows.contains(&7));
    state.observe(&MonitorEvent::GlobalRemoved(9));
    assert!(!state.has_active_audio());
}

#[test]
fn sound_or_a_player_inhibits() {
    let mut app = app(None, false);
    assert_eq!(app.should_inhibit(None), None);
    assert_eq!(app.should_inhibit(Some(false)), Some(false));
    assert_eq!(app.should_inhibit(Some(true)), Some(true));
    app.observe(&MonitorEvent::NodeInfo(1, NodeState::Running));
    assert!(app.has_active_audio());
    assert_eq!(app.should_inhibit(None), Some(true));
    assert_eq!(app.should_inhibit(Some(false)), Some(true));
}

#[test]
fn swayidle_is_taken_over() {
    let mut managed = app(None, true);
    managed.inhibit_state = InhibitState {
        swayidle_running: true,
        child: Some(3),
    };
    let command = managed.start_run().unwrap();
    assert_command(&command, "pkill", &["-x", "swayidle"]);
    assert!(!managed.inhibit_state.swayidle_running);
    assert!(managed.inhibit_state.child.is_none());

    let mut unmanaged = app(Some(ha(true)), false);
    unmanaged.run_cycle(input(true, false, 0));
    assert!(unmanaged.speaker.on);
    assert!(unmanaged.start_run().is_none());

    // A new run switches the speaker on again.
    assert_eq!(
        command_of(&mut unmanaged, input(true, false, 1)),
        Some(SpeakerCommand::TurnOn)
    );
}

#[test]
fn swayidle_follows_the_media() {
    let mut app = app(None, true);

    let SwayidleAction::Start(command) = app.run_cycle(input(false, false, 0)).swayidle else {
        panic!("swayidle should be started");
    };
    assert_command(
        &command,
        "swayidle",
        &["-w", "-C", "/home/you/.config/sway/swayidle.conf"],
    );
    app.on_spawn(None);
    assert!(!app.inhibit_state.swayidle_running);

    // A start that failed is tried again.
    let action = app.run_cycle(input(false, false, 5)).swayidle;
    assert!(matches!(action, SwayidleAction::Start(_)));
    app.on_spawn(Some(42));
    assert!(app.inhibit_state.swayidle_running);

    let action = app.run_cycle(input(false, false, 10)).swayidle;
    assert!(matches!(action, SwayidleAction::Nothing));

    for (audio, mpris) in [(true, false), (false, true)] {
        let action = app.run_cycle(input(audio, mpris, 15)).swayidle;
        assert!(matches!(action, SwayidleAction::Stop(42)));
        assert!(!app.inhibit_state.swayidle_running);
        let action = app.run_cycle(input(true, true, 20)).swayidle;
        assert!(matches!(action, SwayidleAction::Nothing));
        app.set_swayidle(true);
        app.on_spawn(Some(42));
    }
}

#[test]
fn unmanaged_swayidle_is_left_alone() {
    let mut app = app(None, false);
    for media in [false, true, false] {
        let actions = app.run_cycle(input(media, media, 0));
        assert!(matches!(actions.swayidle, SwayidleAction::Nothing));
        assert_eq!(actions.sleep_secs, 5);
        assert!(!app.inhibit_state.swayidle_running);
    }
}

#[test]
fn a_process_that_is_held_is_used_again() {
    let mut state = InhibitState {
        swayidle_running: false,
        child: Some(5),
    };
    let action = state.set_swayidle(&swayidle(true), true);
    assert!(matches!(action, SwayidleAction::Nothing));
    assert!(state.swayidle_running);

    let mut state: InhibitState<u32> = InhibitState {
        swayidle_running: true,
        child: None,
    };
    let action = state.set_swayidle(&swayidle(true), false);
    assert!(matches!(action, SwayidleAction::Nothing));
    assert!(!state.swayidle_running);
}

fn command_of(app: &mut IdleApp<u32>, cycle: CycleInput) -> Option<SpeakerCommand> {
    app.run_cycle(cycle).speaker.map(|call| call.command)
}

#[test]
fn the_speaker_waits_before_it_is_switched_off() {
    let mut app = app(Some(ha(true)), false);
    assert_eq!(command_of(&mut app, input(false, true, 0)), None);
    assert_eq!(
        command_of(&mut app, input(true, false, 1)),
        Some(SpeakerCommand::TurnOn)
    );
    assert_eq!(command_of(&mut app, input(true, false, 2)), None);
    assert_eq!(command_of(&mut app, input(false, false, 10)), None);
    assert_eq!(app.speaker.off_started, Some(10 * SECOND));
    assert_eq!(command_of(&mut app, input(false, false, 34)), None);
    assert_eq!(
        command_of(&mut app, input(false, false, 35)),
        Some(SpeakerCommand::TurnOff)
    );
    assert_eq!(app.speaker, SpeakerState::new());
    assert_eq!(command_of(&mut app, input(false, false, 99)), None);
}

#[test]
fn a_wait_once_begun_goes_on() {
    let mut speaker = SpeakerState::new();
    let mut step = |has_audio, secs: u128| {
        let seen = SpeakerInput {
            has_audio,
            now: secs * SECOND,
        };
        speaker.step(seen, 25)
    };
    assert_eq!(step(true, 0), Some(SpeakerCommand::TurnOn));
    assert_eq!(step(false, 5), None);
    assert_eq!(step(true, 10), None);
    assert_eq!(step(false, 30), Some(SpeakerCommand::TurnOff));
}

#[test]
fn the_first_silence_counts() {
    let silent_at = |cycles: &[(bool, u128)]| {
        let mut speaker = SpeakerState::new();
        let mut last = None;
        for (has_audio, secs) in cycles {
            let seen = SpeakerInput {
                has_audio: *has_audio,
                now: secs * SECOND,
            };
            last = speaker.step(seen, 25);
        }
        last == Some(SpeakerCommand::TurnOff)
    };
    assert!(!silent_at(&[(true, 0), (true, 5), (false, 40)]));
    assert!(!silent_at(&[(true, 0), (false, 40), (false, 64)]));
    assert!(silent_at(&[(true, 0), (false, 40), (false, 65)]));
    assert!(!silent_at(&[(true, 0), (false, 40), (true, 65)]));
    assert!(silent_at(&[(true, 0), (false, 40), (true, 65), (false, 66)]));
}

#[test]
fn flows_that_no_event_concerns_stay() {
    let mut state = PipeWireState::default();
    state.active_flows.insert(3);
    state.observe(&MonitorEvent::NodeInfo(4, NodeState::Running));
    state.observe(&MonitorEvent::GlobalRemoved(4));
    state.observe(&MonitorEvent::GlobalRemoved(5));
    assert!(state.active_flows.contains(&3) && state.active_flows.len() == 1);
}

#[test]
fn no_wait_at_all() {
    let mut speaker = SpeakerState {
        on: true,
        off_started: Some(9),
    };
    let seen = SpeakerInput {
        has_audio: false,
        now: 3,
    };
    assert_eq!(speaker.step(seen, 0), Some(SpeakerCommand::TurnOff));
    let mut speaker = SpeakerState {
        on: true,
        off_started: Some(0),
    };
    let seen = SpeakerInput {
        has_audio: false,
        now: u128::MAX,
    };
    assert_eq!(speaker.step(seen, u64::MAX), Some(SpeakerCommand::TurnOff));
}

#[test]
fn the_speaker_is_optional() {
    for settings in [None, Some(ha(false))] {
        let mut app = app(settings, false);
        assert_eq!(command_of(&mut app, input(true, false, 0)), None);
        assert!(!app.speaker.on);
    }
}

#[test]
fn requests_for_the_speaker() {
    let mut app = app(Some(ha(true)), false);
    let call = app.run_cycle(input(true, false, 0)).speaker.unwrap();
    assert_eq!(
        call.request.url,
        "http://192.168.1.1:8123/api/services/switch/turn_on"
    );
    assert_eq!(call.request.token, "your-long-lived-access-token");
    assert_eq!(call.request.body, r#"{"entity_id":"switch.my_speaker"}"#);
    assert_eq!(SpeakerCommand::TurnOff.service(), "switch/turn_off");

    let settings = HaSettings {
        host: "http://h//".to_string(),
        entity: "a\"b\\c\n\t\r\u{8}\u{c}\u{1}\u{1f}\u{7f}/\u{e9}".to_string(),
        ..ha(true)
    };
    let request = ha_speaker_call(&settings, "switch/turn_off");
    assert_eq!(request.url, "http://h/api/services/switch/turn_off");
    assert_eq!(
        request.body,
        "{\"entity_id\":\"a\\\"b\\\\c\\n\\t\\r\\b\\f\\u0001\\u001f\u{7f}/\u{e9}\"}"
    );

    for slashes in ["", "/", "///"] {
        let settings = HaSettings {
            host: "http://h".to_string() + slashes,
            ..ha(true)
        };
        assert_eq!(ha_speaker_call(&settings, "x").url, "http://h/api/services/x");
    }

    let settings = HaSettings {
        host: "//".to_string(),
        ..ha(true)
    };
    assert_eq!(ha_speaker_call(&settings, "x").url, "/api/services/x");
}

#[test]
fn different_entities_make_different_bodies() {
    let body = |entity: &str| {
        let settings = HaSettings {
            entity: entity.to_string(),
            ..ha(true)
        };
        ha_speaker_call(&settings, "x").body
    };
    let entities = ["", "a", "\\n", "\n", "\u{1}", "\\u0001", "\"", "\\\""];
    for a in entities {
        for b in entities {
            assert_eq!(a == b, body(a) == body(b));
        }
    }
}

#[test]
fn a_run_is_the_run_of_its_parts() {
    let mut app = app(Some(ha(true)), true);
    let mut speaker = SpeakerState::new();
    let mut state = InhibitState::new();
    let cycles = [
        (true, false, 0, None),
        (false, true, 10, None),
        (false, false, 20, None),
        (false, false, 40, Some(7)),
        (false, false, 50, Some(8)),
        (true, true, 60, None),
    ];
    for (has_audio, mpris_playing, secs, spawned) in cycles {
        let seen = SpeakerInput {
            has_audio,
            now: secs * SECOND,
        };
        let expected = speaker.step(seen, 25);
        let running = !(has_audio || mpris_playing);
        if let SwayidleAction::Start(_) = state.set_swayidle(&swayidle(true), running) {
            state.on_spawn(spawned);
        }

        let actions = app.run_cycle(input(has_audio, mpris_playing, secs));
        assert_eq!(actions.speaker.map(|call| call.command), expected);
        if let SwayidleAction::Start(_) = actions.swayidle {
            app.on_spawn(spawned);
        }
        assert_eq!(app.speaker, speaker);
        assert_eq!(app.inhibit_state.child, state.child);
        assert_eq!(app.inhibit_state.swayidle_running, state.swayidle_running);
        assert_eq!(state.child.is_some(), state.swayidle_running);
    }
}

#[test]
fn a_cycle_follows_the_decision() {
    for playing in [false, true] {
        for flow in [false, true] {
            let mut app = app(None, true);
            if flow {
                app.observe(&MonitorEvent::NodeInfo(1, NodeState::Idle));
            }
            let decision = app.should_inhibit(Some(playing)).unwrap();
            let cycle = input(app.has_active_audio(), playing, 0);
            let action = app.run_cycle(cycle).swayidle;
            assert_eq!(matches!(action, SwayidleAction::Start(_)), !decision);
        }
    }
}
