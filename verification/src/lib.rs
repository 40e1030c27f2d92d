//! The decisions of an idle inhibitor for sway: whether sound is played or a
//! media player plays, when swayidle is started and stopped, and when the
//! speaker is switched on and off. What these decisions call for (the messages
//! on the bus, the processes, the requests) is left to the caller.

pub mod bus;
pub mod command;
pub mod flows;
pub mod idle;
pub mod json;
pub mod players;
pub mod scan;
pub mod settings;
pub mod speaker;
pub mod swayidle;
pub mod text;

pub use command::{CommandLine, InhibitError};
pub use flows::{GlobalObject, MonitorAction, MonitorEvent, NodeState, PipeWireState};
pub use idle::{CycleActions, CycleInput, IdleApp, SpeakerCall};
pub use players::PlayersError;
pub use scan::{PlaybackScan, ScanStep};
pub use settings::{
    ConfigError, ConfigFile, HaSettings, ServerSettings, Settings, SwayIdleSettings,
};
pub use settings::{config_argument, config_location, get_config_path, read_config};
pub use speaker::{SpeakerCommand, SpeakerInput, SpeakerRequest, SpeakerState};
pub use swayidle::{InhibitState, SwayidleAction};
