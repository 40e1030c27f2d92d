//! The settings, and where they come from.

use crate::text::same_text;
use vstd::prelude::*;

verus! {

/// All settings.
#[derive(Debug)]
pub struct Settings {
    /// Whether to log more.
    pub debug: bool,
    pub server: ServerSettings,
    /// The speaker control, where it is wanted.
    pub ha: Option<HaSettings>,
    pub swayidle: SwayIdleSettings,
}

/// How the program operates.
#[derive(Debug)]
pub struct ServerSettings {
    /// The number of seconds to inhibit per cycle.
    pub inhibit_duration: u64,
    /// The number of seconds to wait between checks.
    pub sleep_duration: u64,
}

/// The speaker control through Home Assistant.
#[derive(Debug)]
pub struct HaSettings {
    /// The base URL of Home Assistant.
    pub host: String,
    /// A long-lived access token.
    pub token: String,
    /// The entity id of the speaker switch.
    pub entity: String,
    /// Whether the speaker is controlled.
    pub enabled: bool,
}

/// The swayidle process.
#[derive(Debug)]
pub struct SwayIdleSettings {
    /// The path of the configuration file that swayidle is run with.
    pub config_path: String,
    /// Whether swayidle is managed.
    pub enabled: bool,
}

/// The place of the configuration file below the home directory.
pub const CONFIG_FILE: &'static str = ".config/swaddle/config.toml";

/// The command line option that names another configuration file.
pub const CONFIG_OPTION: &'static str = "--config";

impl Settings {
    /// Whether these are the settings of an installation in the given home
    /// directory that nobody has changed.
    pub open spec fn are_standard(self, home: Seq<char>) -> bool {
        &&& !self.debug
        &&& self.server.inhibit_duration == 25
        &&& self.server.sleep_duration == 5
        &&& self.ha matches Some(ha)
        &&& ha.host@ == "http://192.168.1.188:8123"@
        &&& ha.token@ == Seq::<char>::empty()
        &&& ha.entity@ == "switch.cuco_cp5d_306c_switch_2"@
        &&& ha.enabled
        &&& self.swayidle.config_path@ == home + "/.config/niri/swayidle.conf"@
        &&& self.swayidle.enabled
    }

    /// The standard settings for a user with the given home directory, as a
    /// starting point for a configuration of their own.
    pub fn default_in(home: &str) -> (settings: Settings)
        ensures
            settings.are_standard(home@),
            settings.swayidle.config_path@ == home@ + "/.config/niri/swayidle.conf"@,
    {
        Settings {
            debug: false,
            server: ServerSettings { inhibit_duration: 25, sleep_duration: 5 },
            ha: Some(
                HaSettings {
                    host: "http://192.168.1.188:8123".to_string(),
                    token: String::new(),
                    entity: "switch.cuco_cp5d_306c_switch_2".to_string(),
                    enabled: true,
                },
            ),
            swayidle: SwayIdleSettings {
                config_path: home.to_string().concat("/.config/niri/swayidle.conf"),
                enabled: true,
            },
        }
    }

    /// The level of the log messages that are shown.
    pub fn log_level(&self) -> (level: &'static str)
        ensures
            level@ == (if self.debug {
                "debug"@
            } else {
                "info"@
            }),
    {
        if self.debug {
            "debug"
        } else {
            "info"
        }
    }
}

/// `name` below the directory `dir`: a slash stands between them, unless the
/// directory ends with one or is empty.
pub open spec fn joined_path(dir: Seq<char>, name: Seq<char>) -> Seq<char> {
    if dir.len() == 0 || dir.last() == '/' {
        dir + name
    } else {
        dir.push('/') + name
    }
}

/// The path of the configuration file of the user with the given home
/// directory.
pub fn get_config_path(home: &str) -> (path: String)
    ensures
        path@ == joined_path(home@, CONFIG_FILE@),
        path@ == joined_path(home@, ".config/swaddle/config.toml"@),
{
    let n: usize = home.unicode_len();
    if n == 0 || home.get_char(n - 1) == '/' {
        home.to_string().concat(CONFIG_FILE)
    } else {
        proof {
            reveal_strlit("/");
            assert(home@ + "/"@ =~= home@.push('/'));
        }
        home.to_string().concat("/").concat(CONFIG_FILE)
    }
}

/// Where the configuration file is: at the path that was given, or else at its
/// place below the home directory.
pub open spec fn location(custom: Option<Seq<char>>, home: Seq<char>) -> Seq<char> {
    match custom {
        Some(path) => path,
        None => joined_path(home, CONFIG_FILE@),
    }
}

/// Where the configuration file is, given the path that was asked for and the
/// home directory.
pub fn config_location(custom: Option<String>, home: &str) -> (path: String)
    ensures
        path@ == location(
            match custom {
                Some(given) => Some(given@),
                None => None,
            },
            home@,
        ),
        custom matches Some(given) ==> path@ == given@,
        custom is None ==> path@ == joined_path(home@, ".config/swaddle/config.toml"@),
{
    match custom {
        Some(given) => given,
        None => get_config_path(home),
    }
}

/// Whether the option for the configuration file stands at index `i` for the
/// first time.
pub open spec fn option_first_at(args: Seq<Seq<char>>, i: int) -> bool {
    &&& 0 <= i < args.len()
    &&& args[i] == CONFIG_OPTION@
    &&& forall|j: int| 0 <= j < i ==> #[trigger] args[j] != CONFIG_OPTION@
}

/// The path that the command line gives: what stands behind the first option
/// for it. An option with nothing behind it gives none.
pub fn config_argument(args: &Vec<String>) -> (path: Option<String>)
    ensures
        match path {
            Some(path) => exists|i: int| #[trigger]
                option_first_at(crate::text::texts(args@), i) && i + 1 < args.len() && path@
                    == args@[i + 1]@,
            None => forall|i: int| #[trigger]
                option_first_at(crate::text::texts(args@), i) ==> i + 1 == args.len(),
        },
{
    let ghost all = crate::text::texts(args@);
    let mut i: usize = 0;
    while i < args.len()
        invariant
            i <= args.len(),
            all == crate::text::texts(args@),
            forall|j: int| 0 <= j < i ==> #[trigger] all[j] != CONFIG_OPTION@,
        decreases args.len() - i,
    {
        if same_text(args[i].as_str(), CONFIG_OPTION) {
            proof {
                assert(option_first_at(all, i as int));
                assert forall|k: int| #[trigger] option_first_at(all, k) implies k == i by {
                    if k < i {
                        assert(all[k] != CONFIG_OPTION@);
                    } else if k > i {
                        assert(all[i as int] != CONFIG_OPTION@);
                    }
                }
            }
            return if i + 1 < args.len() {
                Some(args[i + 1].clone())
            } else {
                None
            };
        }
        i = i + 1;
    }
    None
}

/// What is found at the path of the configuration file.
#[derive(Debug)]
pub enum ConfigFile {
    /// There is no such file.
    Missing,
    /// The file holds these settings.
    Parsed(Settings),
    /// The file holds no settings, for the given reason.
    Unreadable(String),
}

/// Why there are no settings.
#[derive(Debug)]
pub enum ConfigError {
    /// There is no configuration file at the given path.
    NotFound(String),
    /// The configuration file holds no settings, for the given reason.
    Invalid(String),
}

impl ConfigError {
    /// The text that tells the user what went wrong.
    pub open spec fn text(self) -> Seq<char> {
        match self {
            ConfigError::NotFound(path) => "Config file not found: "@ + path@,
            ConfigError::Invalid(reason) => reason@,
        }
    }

    /// The text that tells the user what went wrong.
    pub fn message(&self) -> (text: String)
        ensures
            text@ == self.text(),
            *self matches ConfigError::NotFound(path) ==> text@ == "Config file not found: "@ + path@,
            *self matches ConfigError::Invalid(reason) ==> text@ == reason@,
    {
        match self {
            ConfigError::NotFound(path) => "Config file not found: ".to_string().concat(
                path.as_str(),
            ),
            ConfigError::Invalid(reason) => reason.clone(),
        }
    }
}

/// Whether this is what comes of the configuration file at a path.
pub open spec fn is_config(
    path: Seq<char>,
    file: ConfigFile,
    settings: Result<Settings, ConfigError>,
) -> bool {
    match file {
        ConfigFile::Missing => settings matches Err(ConfigError::NotFound(at)) && at@ == path,
        ConfigFile::Parsed(found) => settings == Ok::<Settings, ConfigError>(found),
        ConfigFile::Unreadable(reason) => settings == Err::<Settings, ConfigError>(
            ConfigError::Invalid(reason),
        ),
    }
}

/// The settings that the configuration file at a path holds. Nothing stands in
/// for a file that is missing.
pub fn read_config(path: &str, file: ConfigFile) -> (settings: Result<Settings, ConfigError>)
    ensures
        is_config(path@, file, settings),
        file is Missing ==> (settings matches Err(ConfigError::NotFound(at)) && at@ == path@),
        file matches ConfigFile::Parsed(found) ==> settings == Ok::<Settings, ConfigError>(found),
        file matches ConfigFile::Unreadable(reason) ==> settings == Err::<Settings, ConfigError>(
            ConfigError::Invalid(reason),
        ),
{
    match file {
        ConfigFile::Missing => Err(ConfigError::NotFound(path.to_string())),
        ConfigFile::Parsed(found) => Ok(found),
        ConfigFile::Unreadable(reason) => Err(ConfigError::Invalid(reason)),
    }
}

/// There are no settings without a file: where it is missing, the error says
/// that it was not found, and where it was looked for.
pub proof fn law_missing_file_is_an_error(
    path: Seq<char>,
    file: ConfigFile,
    settings: Result<Settings, ConfigError>,
)
    requires
        is_config(path, file, settings),
        file is Missing,
    ensures
        settings is Err,
        "Config file not found"@.is_prefix_of((settings->Err_0).text()),
        path.is_suffix_of((settings->Err_0).text()),
{
    reveal_strlit("Config file not found");
    reveal_strlit("Config file not found: ");
    let text = (settings->Err_0).text();
    let start = "Config file not found"@;
    assert(start =~= text.subrange(0, start.len() as int));
    assert(path =~= text.subrange(text.len() - path.len(), text.len() as int));
}

/// To give no path is to give the usual one: what comes of it is the same,
/// whatever is found there. Where a path is given it alone decides, and not the
/// home directory.
pub proof fn law_usual_place_of_the_file(
    home: Seq<char>,
    other_home: Seq<char>,
    given: Seq<char>,
    file: ConfigFile,
    settings: Result<Settings, ConfigError>,
)
    ensures
        location(None, home) == location(Some(joined_path(home, CONFIG_FILE@)), other_home),
        is_config(location(None, home), file, settings) == is_config(
            location(Some(joined_path(home, CONFIG_FILE@)), other_home),
            file,
            settings,
        ),
        location(Some(given), home) == location(Some(given), other_home),
        location(Some(given), home) == given,
{
}

/// There are settings if and only if the file holds some, and they are those of
/// the file; else the error tells what was found.
pub proof fn law_settings_are_those_of_the_file(
    path: Seq<char>,
    file: ConfigFile,
    settings: Result<Settings, ConfigError>,
)
    requires
        is_config(path, file, settings),
    ensures
        settings is Ok <==> file is Parsed,
        file matches ConfigFile::Parsed(found) ==> settings == Ok::<Settings, ConfigError>(found),
        file matches ConfigFile::Unreadable(reason) ==> (settings->Err_0).text() == reason@,
        file is Missing ==> (settings->Err_0).text() == "Config file not found: "@ + path,
{
}

/// A path below a directory starts with the directory and ends with the name,
/// with a single slash between them and nothing else: the one at the end of the
/// directory, or one more. Below the empty directory it is the name.
pub proof fn law_path_below_a_directory(dir: Seq<char>, name: Seq<char>)
    ensures
        dir.len() == 0 ==> joined_path(dir, name) == name,
        dir.len() > 0 && dir[dir.len() - 1] == '/' ==> joined_path(dir, name) == dir + name,
        dir.len() > 0 && dir[dir.len() - 1] != '/' ==> joined_path(dir, name) == dir + seq!['/']
            + name && joined_path(dir, name) == joined_path(dir + seq!['/'], name),
{
    assert(dir + seq!['/'] =~= dir.push('/'));
    if dir.len() == 0 {
        assert(dir + name =~= name);
    }
}

/// The option that counts is the first one: it stands where it is, and nowhere
/// before, and there is no other such place.
pub proof fn law_first_option_counts(args: Seq<Seq<char>>, i: int, j: int)
    ensures
        option_first_at(args, i) <==> 0 <= i < args.len() && args[i] == "--config"@ && forall|
            k: int,
        |
            0 <= k < i ==> #[trigger] args[k] != "--config"@,
        option_first_at(args, i) && option_first_at(args, j) ==> i == j,
{
    if option_first_at(args, i) && option_first_at(args, j) {
        if i < j {
            assert(args[i] != CONFIG_OPTION@);
        } else if j < i {
            assert(args[j] != CONFIG_OPTION@);
        }
    }
}

/// The standard settings depend on the home directory only in the path of the
/// configuration of swayidle, which lies below it.
pub proof fn law_standard_settings(settings: Settings, home: Seq<char>)
    requires
        settings.are_standard(home),
    ensures
        !settings.debug,
        settings.server.inhibit_duration == 25,
        settings.server.sleep_duration == 5,
        settings.ha matches Some(ha) && ha.host@ == "http://192.168.1.188:8123"@ && ha.token@.len()
            == 0 && ha.entity@ == "switch.cuco_cp5d_306c_switch_2"@ && ha.enabled,
        settings.swayidle.enabled,
        settings.swayidle.config_path@ == home + "/.config/niri/swayidle.conf"@,
{
}

} // verus!
