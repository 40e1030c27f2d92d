use config::{Config, File, FileFormat};
use dbus::arg::Variant;
use dbus::Message;
use swaddle::players::{list_media_players, media_players};
use swaddle::{
    read_config, ConfigFile, HaSettings, IdleApp, PlayersError, ScanStep, ServerSettings, Settings,
    SwayIdleSettings,
};

fn make_test_settings(inhibit_duration: u64, sleep_duration: u64) -> Settings {
    Settings {
        debug: false,
        server: ServerSettings {
            inhibit_duration,
            sleep_duration,
        },
        ha: None,
        swayidle: SwayIdleSettings {
            config_path: "/tmp/swaddle-test/swayidle.conf".to_string(),
            enabled: false,
        },
    }
}

fn new_test_app() -> Option<IdleApp<u32>> {
    IdleApp::new(Ok(make_test_settings(25, 5))).ok()
}

/// Reads the optional `ha` section of a configuration.
fn ha_section(values: &Config) -> Option<HaSettings> {
    values.get_table("ha").ok()?;
    Some(HaSettings {
        host: values.get_string("ha.host").unwrap(),
        token: values.get_string("ha.token").unwrap(),
        entity: values.get_string("ha.entity").unwrap(),
        enabled: values.get_bool("ha.enabled").unwrap(),
    })
}

/// Parses a configuration.
fn parse(toml: &str) -> ConfigFile {
    let parsed = Config::builder()
        .add_source(File::from_str(toml, FileFormat::Toml))
        .build();
    match parsed {
        Ok(values) => ConfigFile::Parsed(Settings {
            debug: values.get_bool("debug").unwrap(),
            server: ServerSettings {
                inhibit_duration: values.get_int("server.inhibit_duration").unwrap() as u64,
                sleep_duration: values.get_int("server.sleep_duration").unwrap() as u64,
            },
            ha: ha_section(&values),
            swayidle: SwayIdleSettings {
                config_path: values.get_string("swayidle.config_path").unwrap(),
                enabled: values.get_bool("swayidle.enabled").unwrap(),
            },
        }),
        Err(error) => ConfigFile::Unreadable(error.to_string()),
    }
}

/// A message that carries nothing yet, as a stand-in for a reply.
fn empty_reply() -> Message {
    Message::new_method_call("a.b", "/", "a.b", "Reply").unwrap()
}

#[test]
fn test_config_lifecycle() {
    let config_path = "/tmp/swaddle_test/config.toml";

    // Missing file -> Err with a helpful message
    let err = read_config(config_path, ConfigFile::Missing).unwrap_err();
    assert!(
        err.message().contains("Config file not found"),
        "unexpected error: {}",
        err.message()
    );
    assert_eq!(
        err.message(),
        "Config file not found: /tmp/swaddle_test/config.toml"
    );

    // Existing file -> values are parsed
    let custom_toml = "\
debug = true

[server]
inhibit_duration = 60
sleep_duration = 10

[swayidle]
config_path = \"/tmp/swayidle.conf\"
enabled = true
";
    let config = read_config(config_path, parse(custom_toml)).unwrap();
    assert!(config.debug);
    assert_eq!(config.server.inhibit_duration, 60);
    assert_eq!(config.server.sleep_duration, 10);
    assert_eq!(config.swayidle.config_path, "/tmp/swayidle.conf");
    assert!(config.swayidle.enabled);
    assert!(
        config.ha.is_none(),
        "the optional ha section should be None when absent"
    );
}

#[test]
fn configuration_with_a_speaker() {
    let toml = "\
debug = false

[server]
inhibit_duration = 25
sleep_duration = 5

[ha]
host = \"http://192.168.1.1:8123\"
token = \"your-long-lived-access-token\"
entity = \"switch.my_speaker\"
enabled = true

[swayidle]
config_path = \"/home/you/.config/sway/swayidle.conf\"
enabled = true
";
    let config = read_config("/x", parse(toml)).unwrap();
    let ha = config.ha.unwrap();
    assert_eq!(ha.host, "http://192.168.1.1:8123");
    assert_eq!(ha.token, "your-long-lived-access-token");
    assert_eq!(ha.entity, "switch.my_speaker");
    assert!(ha.enabled);

    let error = read_config("/x", parse("debug = ")).unwrap_err();
    assert!(!error.message().contains("Config file not found"));
}

#[test]
fn test_app_initialization_and_state() {
    let config = Ok(Settings {
        debug: true,
        server: ServerSettings {
            inhibit_duration: 30,
            sleep_duration: 10,
        },
        ha: None,
        swayidle: SwayIdleSettings {
            config_path: "/tmp/swaddle-test/swayidle.conf".to_string(),
            enabled: false,
        },
    });
    let app: IdleApp<u32> = IdleApp::new(config).unwrap();

    assert_eq!(app.config.server.inhibit_duration, 30);
    assert!(
        !app.has_active_audio(),
        "freshly created app should have no active audio flows"
    );
}

#[test]
fn test_media_player_detection_logic() {
    let mock_names = vec![
        "org.mpris.MediaPlayer2.spotify".to_string(),
        "org.freedesktop.DBus".to_string(),
        "org.mpris.MediaPlayer2.vlc".to_string(),
        "org.gnome.SessionManager".to_string(),
    ];

    let filtered = media_players(&mock_names);

    assert_eq!(filtered.len(), 2);
    assert!(filtered.contains(&"org.mpris.MediaPlayer2.spotify".to_string()));
    assert!(filtered.contains(&"org.mpris.MediaPlayer2.vlc".to_string()));
}

#[test]
fn test_blocking_logic_comprehensive() {
    let app = new_test_app().unwrap();

    assert!(!app.has_active_audio());

    let command = app.run_cmd();
    assert_eq!(command.program, "systemd-inhibit");
    assert_eq!(
        command.args,
        vec![
            "--what",
            "idle",
            "--who",
            "swayidle-inhibit",
            "--why",
            "audio playing",
            "--mode",
            "block",
            "sh",
            "-c",
            "sleep 25"
        ]
    );

    assert_eq!(app.inhibit_outcome(Some(7)).unwrap(), 7);
    assert_eq!(
        app.inhibit_outcome(None).unwrap_err().message(),
        "Unable to block swayidle due to unknown error"
    );

    let mut scan = app.check_playback_status(Err(PlayersError::NoNames));
    assert!(matches!(scan.next_step(), ScanStep::Done(false)));
}

#[test]
fn mock_player_is_found_and_plays() {
    let app = new_test_app().unwrap();
    let names = vec![
        "org.freedesktop.DBus".to_string(),
        "org.mpris.MediaPlayer2.mocktestplayer".to_string(),
    ];

    let players = app.list_media_players(Ok(empty_reply().append1(names)));
    let players = players.unwrap();
    assert!(players.iter().any(|p| p.contains("mocktestplayer")));

    let mut scan = app.check_playback_status(Ok(players));
    let ScanStep::Ask(_) = scan.next_step() else {
        panic!("the player should be asked");
    };
    scan.on_reply(Ok(empty_reply().append1(Variant("Playing"))));
    assert!(matches!(scan.next_step(), ScanStep::Done(true)));

    // Once the player is gone it is no longer listed.
    let players = list_media_players(Ok(empty_reply().append1(vec![":1.1".to_string()])));
    assert!(players.unwrap().is_empty());
}
