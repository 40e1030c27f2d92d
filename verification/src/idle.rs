//! The idle inhibitor as a whole.

use crate::command::{inhibit_command, CommandLine, InhibitError};
use crate::flows::{MonitorAction, MonitorEvent, PipeWireState};
use crate::players::{list_media_players, PlayersError};
use crate::scan::PlaybackScan;
use crate::settings::{ConfigError, Settings};
use crate::speaker::{ha_speaker_call, SpeakerCommand, SpeakerInput, SpeakerRequest, SpeakerState};
use crate::swayidle::{InhibitState, SwayidleAction};
use dbus::Message;
use vstd::prelude::*;

verus! {

/// The idle inhibitor; `C` is the handle of a process that was started.
#[derive(Debug)]
pub struct IdleApp<C> {
    pub config: Settings,
    pub pipewire_state: PipeWireState,
    pub inhibit_state: InhibitState<C>,
    pub speaker: SpeakerState,
}

/// What one cycle sees.
#[derive(Debug, Clone, Copy, PartialEq, Eq, Structural)]
pub struct CycleInput {
    /// Whether a flow is active.
    pub has_audio: bool,
    /// Whether a media player plays.
    pub mpris_playing: bool,
    /// The time, in nanoseconds since a fixed moment.
    pub now: u128,
}

/// A command for the speaker and the request that carries it out.
#[derive(Debug)]
pub struct SpeakerCall {
    pub command: SpeakerCommand,
    pub request: SpeakerRequest,
}

/// What is to be done in one cycle: first about the speaker, then about
/// swayidle; then the given number of seconds is slept.
#[derive(Debug)]
pub struct CycleActions<C> {
    pub speaker: Option<SpeakerCall>,
    pub swayidle: SwayidleAction<C>,
    pub sleep_secs: u64,
}

impl CycleInput {
    /// Whether idling is to be inhibited: sound is played or a media player plays.
    pub open spec fn inhibits(self) -> bool {
        self.has_audio || self.mpris_playing
    }

    /// What the speaker depends on.
    pub open spec fn for_speaker(self) -> SpeakerInput {
        SpeakerInput { has_audio: self.has_audio, now: self.now }
    }
}

/// Whether idling is to be inhibited, as far as it can be told from the active
/// flows and from what is known of the media players.
pub open spec fn inhibit_decision(flows: Set<u32>, mpris_playing: Option<bool>) -> Option<bool> {
    if crate::flows::any_active(flows) {
        Some(true)
    } else {
        mpris_playing
    }
}

/// Whether the settings ask for the speaker to be controlled.
pub open spec fn controls_speaker(config: Settings) -> bool {
    config.ha matches Some(ha) && ha.enabled
}

/// What a cycle does about the speaker under the given settings.
pub open spec fn speaker_command(
    state: SpeakerState,
    config: Settings,
    input: CycleInput,
) -> Option<SpeakerCommand> {
    if controls_speaker(config) {
        state.command(input.for_speaker(), config.server.inhibit_duration)
    } else {
        None
    }
}

/// The speaker after a cycle under the given settings.
pub open spec fn speaker_next(
    state: SpeakerState,
    config: Settings,
    input: CycleInput,
) -> SpeakerState {
    if controls_speaker(config) {
        state.after(input.for_speaker(), config.server.inhibit_duration)
    } else {
        state
    }
}

impl<C> IdleApp<C> {
    /// The parts are valid, and a swayidle that is not managed was not started.
    pub open spec fn wf(self) -> bool {
        &&& self.speaker.wf()
        &&& self.inhibit_state.wf()
        &&& !self.config.swayidle.enabled ==> self.inhibit_state == InhibitState::<C>::stopped()
    }

    /// The inhibitor after the decisions of a cycle, before what they call for.
    pub open spec fn decided(self, input: CycleInput) -> IdleApp<C> {
        IdleApp {
            speaker: speaker_next(self.speaker, self.config, input),
            inhibit_state: self.inhibit_state.after_set(
                self.config.swayidle.enabled,
                !input.inhibits(),
            ),
            ..self
        }
    }

    /// The inhibitor after the command that starts swayidle was run.
    pub open spec fn after_spawn(self, spawned: Option<C>) -> IdleApp<C> {
        IdleApp { inhibit_state: self.inhibit_state.after_spawn(spawned), ..self }
    }

    /// The inhibitor after a cycle; where the cycle calls for a start of swayidle,
    /// `spawned` is what came of it.
    pub open spec fn cycled(self, input: CycleInput, spawned: Option<C>) -> IdleApp<C> {
        IdleApp {
            speaker: speaker_next(self.speaker, self.config, input),
            inhibit_state: crate::swayidle::after_cycle(
                self.inhibit_state,
                self.config.swayidle.enabled,
                input.inhibits(),
                spawned,
            ),
            ..self
        }
    }

    /// Makes an inhibitor with the given settings. Without settings there is
    /// none, and the error is passed on.
    pub fn new(config: Result<Settings, ConfigError>) -> (app: Result<IdleApp<C>, ConfigError>)
        ensures
            match config {
                Ok(settings) => app matches Ok(app) && app.config == settings && app.wf()
                    && app.pipewire_state@ == Set::<u32>::empty() && app.inhibit_state
                    == InhibitState::<C>::stopped() && app.speaker == SpeakerState::initial(),
                Err(error) => app == Err::<IdleApp<C>, ConfigError>(error),
            },
    {
        match config {
            Ok(settings) => Ok(
                IdleApp {
                    config: settings,
                    pipewire_state: PipeWireState::default(),
                    inhibit_state: InhibitState::new(),
                    speaker: SpeakerState::new(),
                },
            ),
            Err(error) => Err(error),
        }
    }

    /// Reads the answer to the call for all names on the bus.
    pub fn list_media_players(&self, response: Result<Message, String>) -> (players: Result<
        Vec<String>,
        PlayersError,
    >)
        ensures
            match response {
                Err(reason) => players == Err::<Vec<String>, PlayersError>(
                    PlayersError::Reply(reason),
                ),
                Ok(message) => match crate::bus::message_text_list(message) {
                    None => players == Err::<Vec<String>, PlayersError>(PlayersError::NoNames),
                    Some(names) => players matches Ok(found) && crate::text::texts(found@)
                        == crate::players::player_names(names),
                },
            },
    {
        list_media_players(response)
    }

    /// Starts the round that finds out whether one of the media players plays.
    pub fn check_playback_status(&self, players: Result<Vec<String>, PlayersError>) -> (scan:
        PlaybackScan)
        ensures
            scan@ == crate::scan::ScanState::fresh(
                match players {
                    Ok(found) => crate::text::texts(found@),
                    Err(_) => Seq::empty(),
                },
            ),
            scan@.wf(),
    {
        PlaybackScan::new(players)
    }

    /// Takes in what PipeWire reports, and says what is to be done about it.
    pub fn observe(&mut self, event: &MonitorEvent) -> (action: MonitorAction)
        ensures
            *final(self) == (IdleApp { pipewire_state: final(self).pipewire_state, ..*old(self) }),
            final(self).pipewire_state@ == crate::flows::flows_after(
                old(self).pipewire_state@,
                *event,
            ),
            action is Listen <==> (*event matches MonitorEvent::Global(object)
                && crate::flows::is_flow(object)),
    {
        self.pipewire_state.observe(event)
    }

    /// Whether any flow is active.
    pub fn has_active_audio(&self) -> (active: bool)
        ensures
            active == crate::flows::any_active(self.pipewire_state@),
            active <==> exists|id: u32| self.pipewire_state@.contains(id),
    {
        self.pipewire_state.has_active_audio()
    }

    /// Whether idling is to be inhibited, given whether a media player plays.
    /// `None` for that means that the players were not asked; `None` as the
    /// result, that they have to be.
    pub fn should_inhibit(&self, mpris_playing: Option<bool>) -> (inhibit: Option<bool>)
        ensures
            inhibit == inhibit_decision(self.pipewire_state@, mpris_playing),
            (exists|id: u32| self.pipewire_state@.contains(id)) ==> inhibit == Some(true),
            !(exists|id: u32| self.pipewire_state@.contains(id)) ==> inhibit == mpris_playing,
    {
        if self.has_active_audio() {
            Some(true)
        } else {
            mpris_playing
        }
    }

    /// Asks for swayidle to run or not to run.
    pub fn set_swayidle(&mut self, running: bool) -> (action: SwayidleAction<C>)
        ensures
            *final(self) == (IdleApp {
                inhibit_state: old(self).inhibit_state.after_set(
                    old(self).config.swayidle.enabled,
                    running,
                ),
                ..*old(self)
            }),
            old(self).wf() ==> final(self).wf(),
            crate::swayidle::is_set_action(
                old(self).inhibit_state,
                old(self).config.swayidle,
                running,
                action,
            ),
            action matches SwayidleAction::Stop(child) ==> old(self).inhibit_state.child == Some(
                child,
            ),
            action is Stop <==> old(self).inhibit_state.child is Some
                && final(self).inhibit_state.child is None,
    {
        self.inhibit_state.set_swayidle(&self.config.swayidle, running)
    }

    /// Takes in the process that the command that starts swayidle made, or that
    /// it made none.
    pub fn on_spawn(&mut self, spawned: Option<C>)
        requires
            old(self).config.swayidle.enabled,
            old(self).inhibit_state.child is None,
        ensures
            *final(self) == old(self).after_spawn(spawned),
            old(self).wf() ==> final(self).wf(),
    {
        self.inhibit_state.on_spawn(spawned);
    }

    /// Begins to run, with a speaker that was not switched on yet. Where swayidle
    /// is managed, the command that is returned ends any that was started
    /// elsewhere.
    pub fn start_run(&mut self) -> (command: Option<CommandLine>)
        ensures
            *final(self) == (IdleApp {
                inhibit_state: if old(self).config.swayidle.enabled {
                    InhibitState::<C>::stopped()
                } else {
                    old(self).inhibit_state
                },
                speaker: SpeakerState::initial(),
                ..*old(self)
            }),
            old(self).wf() ==> final(self).wf(),
            command is Some <==> old(self).config.swayidle.enabled,
            command matches Some(pkill) ==> pkill.is("pkill"@, seq!["-x"@, "swayidle"@]),
    {
        self.speaker = SpeakerState::new();
        self.inhibit_state.take_over(&self.config.swayidle)
    }

    /// Goes through one cycle, and says what is to be done.
    pub fn run_cycle(&mut self, input: CycleInput) -> (actions: CycleActions<C>)
        ensures
            *final(self) == old(self).decided(input),
            old(self).wf() ==> final(self).wf(),
            match speaker_command(old(self).speaker, old(self).config, input) {
                Some(command) => actions.speaker matches Some(call) && call.command == command
                    && crate::speaker::calls_service(
                    call.request,
                    old(self).config.ha->0,
                    command.service_text(),
                ),
                None => actions.speaker is None,
            },
            crate::swayidle::is_set_action(
                old(self).inhibit_state,
                old(self).config.swayidle,
                !input.inhibits(),
                actions.swayidle,
            ),
            actions.sleep_secs == old(self).config.server.sleep_duration,
            final(self).config == old(self).config,
            final(self).pipewire_state == old(self).pipewire_state,
            actions.speaker is Some <==> final(self).speaker.on != old(self).speaker.on,
            actions.speaker matches Some(call) ==> (call.command is TurnOn
                <==> final(self).speaker.on),
            (old(self).config.ha matches Some(ha) && ha.enabled) && input.has_audio
                ==> final(self).speaker.on,
            !(old(self).config.ha matches Some(ha) && ha.enabled) ==> final(self).speaker
                == old(self).speaker,
            actions.swayidle matches SwayidleAction::Stop(child) ==> old(self).inhibit_state.child
                == Some(child),
            actions.swayidle is Stop <==> old(self).inhibit_state.child is Some
                && final(self).inhibit_state.child is None,
            old(self).config.swayidle.enabled && (input.has_audio || input.mpris_playing)
                ==> !final(self).inhibit_state.swayidle_running,
    {
        let mut speaker: Option<SpeakerCall> = None;
        if let Some(ha) = &self.config.ha {
            if ha.enabled {
                let seen = SpeakerInput { has_audio: input.has_audio, now: input.now };
                match self.speaker.step(seen, self.config.server.inhibit_duration) {
                    Some(command) => {
                        let request = ha_speaker_call(ha, command.service());
                        speaker = Some(SpeakerCall { command, request });
                    },
                    None => {},
                }
            }
        }
        let should_inhibit = input.has_audio || input.mpris_playing;
        let swayidle = self.set_swayidle(!should_inhibit);
        CycleActions { speaker, swayidle, sleep_secs: self.config.server.sleep_duration }
    }

    /// The command that keeps the system from idling for one cycle.
    pub fn run_cmd(&self) -> (command: CommandLine)
        ensures
            command.is(
                "systemd-inhibit"@,
                seq![
                    "--what"@,
                    "idle"@,
                    "--who"@,
                    "swayidle-inhibit"@,
                    "--why"@,
                    "audio playing"@,
                    "--mode"@,
                    "block"@,
                    "sh"@,
                    "-c"@,
                    "sleep "@ + crate::text::decimal_text(
                        self.config.server.inhibit_duration as nat,
                    ),
                ],
            ),
    {
        inhibit_command(self.config.server.inhibit_duration)
    }

    /// What comes of [`IdleApp::run_cmd`]: the process that its command made, or
    /// the error where it made none.
    pub fn inhibit_outcome(&self, spawned: Option<C>) -> (outcome: Result<C, InhibitError>)
        ensures
            outcome == (match spawned {
                Some(child) => Ok::<C, InhibitError>(child),
                None => Err::<C, InhibitError>(InhibitError::NotStarted),
            }),
    {
        match spawned {
            Some(child) => Ok(child),
            None => Err(InhibitError::NotStarted),
        }
    }
}

/// A whole cycle is its decisions, followed by the outcome of the start where
/// the action about swayidle is to start it, and by nothing else.
pub proof fn law_cycle_is_decisions_and_start<C>(
    app: IdleApp<C>,
    input: CycleInput,
    action: SwayidleAction<C>,
    spawned: Option<C>,
)
    requires
        crate::swayidle::is_set_action(
            app.inhibit_state,
            app.config.swayidle,
            !input.inhibits(),
            action,
        ),
    ensures
        app.cycled(input, spawned) == (if action is Start {
            app.decided(input).after_spawn(spawned)
        } else {
            app.decided(input)
        }),
{
}

/// While media plays the system is kept from idling: after a cycle that saw
/// sound or a playing media player, no swayidle of this program runs. Without
/// media idling is let be: a managed swayidle runs if it ran before or could be
/// started.
pub proof fn law_media_keeps_the_system_awake<C>(
    app: IdleApp<C>,
    input: CycleInput,
    spawned: Option<C>,
)
    requires
        app.wf(),
    ensures
        input.inhibits() ==> app.cycled(input, spawned).inhibit_state
            == InhibitState::<C>::stopped(),
        !input.inhibits() && app.config.swayidle.enabled ==> {
            let after = app.cycled(input, spawned).inhibit_state;
            after.swayidle_running <==> app.inhibit_state.swayidle_running || spawned is Some
        },
{
}

/// Every cycle keeps the inhibitor valid, its settings and what is known of
/// PipeWire.
pub proof fn law_cycles_keep_wf<C>(app: IdleApp<C>, input: CycleInput, spawned: Option<C>)
    requires
        app.wf(),
    ensures
        app.cycled(input, spawned).wf(),
        app.cycled(input, spawned).config == app.config,
        app.cycled(input, spawned).pipewire_state == app.pipewire_state,
{
}

/// Without a section for it, or with that section disabled, the speaker is left
/// alone.
pub proof fn law_speaker_control_is_optional(
    state: SpeakerState,
    config: Settings,
    input: CycleInput,
)
    requires
        config.ha matches Some(ha) ==> !ha.enabled,
    ensures
        speaker_command(state, config, input) is None,
        speaker_next(state, config, input) == state,
{
}

/// A cycle inhibits idling if and only if that is the decision for the flows
/// and the media players that it sees.
pub proof fn law_cycle_follows_the_decision(flows: Set<u32>, input: CycleInput)
    requires
        input.has_audio == crate::flows::any_active(flows),
    ensures
        inhibit_decision(flows, Some(input.mpris_playing)) == Some(input.inhibits()),
{
}

/// An inhibitor after a series of cycles.
pub open spec fn after_run<C>(
    app: IdleApp<C>,
    inputs: Seq<CycleInput>,
    spawns: Seq<Option<C>>,
) -> IdleApp<C>
    decreases inputs.len(),
{
    if inputs.len() == 0 {
        app
    } else {
        after_run(app, inputs.drop_last(), spawns.drop_last()).cycled(inputs.last(), spawns.last())
    }
}

/// In a run from the start on, the settings stay as they are, swayidle depends
/// only on which cycles inhibit idling and on the starts, and the speaker, where
/// it is controlled, only on the audio and the time of the cycles.
pub proof fn law_run_is_the_run_of_its_parts<C>(
    app: IdleApp<C>,
    inputs: Seq<CycleInput>,
    spawns: Seq<Option<C>>,
)
    requires
        app.inhibit_state == InhibitState::<C>::stopped(),
        app.speaker == SpeakerState::initial(),
        inputs.len() == spawns.len(),
    ensures
        after_run(app, inputs, spawns).config == app.config,
        after_run(app, inputs, spawns).wf(),
        after_run(app, inputs, spawns).inhibit_state == crate::swayidle::after_cycles(
            app.config.swayidle.enabled,
            inputs.map_values(|input: CycleInput| input.inhibits()),
            spawns,
        ),
        after_run(app, inputs, spawns).speaker == (if controls_speaker(app.config) {
            crate::speaker::speaker_after(
                inputs.map_values(|input: CycleInput| input.for_speaker()),
                app.config.server.inhibit_duration,
            )
        } else {
            SpeakerState::initial()
        }),
    decreases inputs.len(),
{
    let inhibits = inputs.map_values(|input: CycleInput| input.inhibits());
    let seen = inputs.map_values(|input: CycleInput| input.for_speaker());
    if inputs.len() > 0 {
        let fewer = inputs.drop_last();
        law_run_is_the_run_of_its_parts(app, fewer, spawns.drop_last());
        assert(inhibits.drop_last() =~= fewer.map_values(|input: CycleInput| input.inhibits()));
        assert(seen.drop_last() =~= fewer.map_values(|input: CycleInput| input.for_speaker()));
    }
}

/// What a cycle does about the speaker, for every time. Where the speaker is
/// controlled: it is switched on if and only if there is audio and it is off,
/// and off if and only if there is none, it is on, and the wait that has begun
/// has lasted for the seconds of the settings; and whenever a cycle changes
/// whether the speaker counts as on, it hands out the command for that change.
pub proof fn law_cycle_commands_the_speaker(
    state: SpeakerState,
    config: Settings,
    input: CycleInput,
)
    requires
        config.ha matches Some(ha) && ha.enabled,
    ensures
        speaker_command(state, config, input) == Some(SpeakerCommand::TurnOn) <==> input.has_audio
            && !state.on,
        speaker_command(state, config, input) == Some(SpeakerCommand::TurnOff)
            <==> !input.has_audio && state.on && (state.off_started matches Some(from) && (
        config.server.inhibit_duration == 0 || input.now - from >= config.server.inhibit_duration
            * 1_000_000_000)),
        speaker_next(state, config, input).on != state.on <==> speaker_command(
            state,
            config,
            input,
        ) is Some,
        speaker_command(state, config, input) matches Some(command) ==> (speaker_next(
            state,
            config,
            input,
        ).on <==> command is TurnOn),
        speaker_command(state, config, input) is None ==> speaker_next(
            state,
            config,
            input,
        ).off_started == (if !input.has_audio && state.on && state.off_started is None {
            Some(input.now)
        } else {
            state.off_started
        }),
        input.has_audio ==> speaker_next(state, config, input).on,
{
    crate::speaker::law_cycle_switches_the_speaker(
        state,
        input.for_speaker(),
        config.server.inhibit_duration,
    );
}

/// In a run from the start with a speaker that is controlled, each cycle hands
/// out the command of that cycle in the series of audio and times seen.
pub proof fn law_run_hands_out_the_commands<C>(
    app: IdleApp<C>,
    inputs: Seq<CycleInput>,
    spawns: Seq<Option<C>>,
    k: int,
)
    requires
        app.inhibit_state == InhibitState::<C>::stopped(),
        app.speaker == SpeakerState::initial(),
        inputs.len() == spawns.len(),
        0 <= k < inputs.len(),
        app.config.ha matches Some(ha) && ha.enabled,
    ensures
        speaker_command(
            after_run(app, inputs.take(k), spawns.take(k)).speaker,
            app.config,
            inputs[k],
        ) == crate::speaker::command_at(
            inputs.map_values(
                |input: CycleInput| SpeakerInput { has_audio: input.has_audio, now: input.now },
            ),
            app.config.server.inhibit_duration,
            k,
        ),
{
    let seen = inputs.map_values(
        |input: CycleInput| SpeakerInput { has_audio: input.has_audio, now: input.now },
    );
    law_run_is_the_run_of_its_parts(app, inputs.take(k), spawns.take(k));
    assert(seen.take(k) =~= inputs.take(k).map_values(|input: CycleInput| input.for_speaker()));
    assert(seen[k] == inputs[k].for_speaker());
}

/// Idling is to be inhibited if and only if there is a flow or a media player
/// plays. A flow is enough; without one the players decide, and have to be asked
/// where they were not.
pub proof fn law_what_inhibits(
    flows: Set<u32>,
    id: u32,
    mpris_playing: Option<bool>,
    input: CycleInput,
)
    ensures
        flows.contains(id) ==> inhibit_decision(flows, mpris_playing) == Some(true),
        (forall|some: u32| !flows.contains(some)) ==> inhibit_decision(flows, mpris_playing)
            == mpris_playing,
        input.inhibits() <==> input.has_audio || input.mpris_playing,
{
}

/// After the decisions of a cycle that saw media, the process that was held has
/// been handed out to be stopped and none is held; after one that saw none,
/// nothing is stopped. The settings and the flows stay as they were.
pub proof fn law_media_stops_the_process<C>(
    app: IdleApp<C>,
    input: CycleInput,
    action: SwayidleAction<C>,
)
    requires
        app.wf(),
        crate::swayidle::is_set_action(
            app.inhibit_state,
            app.config.swayidle,
            !input.inhibits(),
            action,
        ),
    ensures
        input.has_audio || input.mpris_playing ==> app.decided(input).inhibit_state.child is None
            && !app.decided(input).inhibit_state.swayidle_running,
        (input.has_audio || input.mpris_playing) && app.inhibit_state.child is Some ==> action
            == SwayidleAction::Stop(app.inhibit_state.child->0),
        !input.has_audio && !input.mpris_playing ==> !(action is Stop) && app.decided(
            input,
        ).inhibit_state == app.inhibit_state,
        !input.has_audio && !input.mpris_playing && app.config.swayidle.enabled
            && app.inhibit_state.child is None ==> action is Start,
        app.decided(input).config == app.config,
        app.decided(input).pipewire_state == app.pipewire_state,
{
}

/// The speaker is controlled if and only if there is a section for it that is
/// enabled, and depends on the audio and the time that a cycle sees.
pub proof fn law_when_the_speaker_is_controlled(config: Settings, input: CycleInput)
    ensures
        controls_speaker(config) <==> (config.ha matches Some(ha) && ha.enabled),
        input.for_speaker().has_audio == input.has_audio,
        input.for_speaker().now == input.now,
{
}

} // verus!
