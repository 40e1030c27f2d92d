//! The speaker: when it is switched on and off, and by which request.

use crate::json::entry_text;
use crate::settings::HaSettings;
use crate::text::trim_trailing;
use vstd::prelude::*;

verus! {

/// The number of seconds after which a request for the speaker is given up.
pub const REQUEST_TIMEOUT_SECS: u64 = 5;

/// The number of nanoseconds in a second.
pub const NANOS_PER_SEC: u128 = 1_000_000_000;

/// What is to be done about the speaker.
#[derive(Debug, Clone, Copy, PartialEq, Eq, Structural)]
pub enum SpeakerCommand {
    TurnOn,
    TurnOff,
}

impl SpeakerCommand {
    /// The Home Assistant service that does it.
    pub open spec fn service_text(self) -> Seq<char> {
        match self {
            SpeakerCommand::TurnOn => "switch/turn_on"@,
            SpeakerCommand::TurnOff => "switch/turn_off"@,
        }
    }

    /// The Home Assistant service that does it.
    pub fn service(self) -> (service: &'static str)
        ensures
            service@ == self.service_text(),
            self is TurnOn ==> service@ == "switch/turn_on"@,
            self is TurnOff ==> service@ == "switch/turn_off"@,
    {
        match self {
            SpeakerCommand::TurnOn => "switch/turn_on",
            SpeakerCommand::TurnOff => "switch/turn_off",
        }
    }
}

/// A request to Home Assistant: a POST of `body`, which is JSON, to `url`, with
/// `token` as the bearer token.
#[derive(Debug)]
pub struct SpeakerRequest {
    pub url: String,
    pub token: String,
    pub body: String,
}

/// The URL of a service on a host; slashes at the end of the host do not count.
pub open spec fn service_url(host: Seq<char>, service: Seq<char>) -> Seq<char> {
    crate::text::without_trailing(host, '/') + "/api/services/"@ + service
}

/// Whether a request calls a service for the entity in the settings.
pub open spec fn calls_service(
    request: SpeakerRequest,
    ha: HaSettings,
    service: Seq<char>,
) -> bool {
    &&& request.url@ == service_url(ha.host@, service)
    &&& request.token@ == ha.token@
    &&& request.body@ == crate::json::json_entry("entity_id"@, ha.entity@)
}

/// The request that calls a service of Home Assistant for the speaker.
pub fn ha_speaker_call(ha: &HaSettings, service: &str) -> (request: SpeakerRequest)
    ensures
        calls_service(request, *ha, service@),
        request.url@ == crate::text::without_trailing(ha.host@, '/') + "/api/services/"@ + service@,
        request.token@ == ha.token@,
        request.body@ == crate::json::json_entry("entity_id"@, ha.entity@),
{
    SpeakerRequest {
        url: trim_trailing(ha.host.as_str(), '/').to_string().concat("/api/services/").concat(
            service,
        ),
        token: ha.token.clone(),
        body: entry_text("entity_id", ha.entity.as_str()),
    }
}

/// What is known of the speaker.
#[derive(Debug, Clone, Copy, PartialEq, Eq, Structural)]
pub struct SpeakerState {
    /// Whether it was last switched on.
    pub on: bool,
    /// When the wait began after which it is switched off, in nanoseconds.
    pub off_started: Option<u128>,
}

/// What one cycle sees: whether a flow is active, and the time in nanoseconds.
#[derive(Debug, Clone, Copy, PartialEq, Eq, Structural)]
pub struct SpeakerInput {
    pub has_audio: bool,
    pub now: u128,
}

/// The nanoseconds from one time to another, none if it is not later.
pub open spec fn elapsed(from: u128, now: u128) -> int {
    if now >= from {
        now - from
    } else {
        0
    }
}

impl SpeakerState {
    /// Only a speaker that is on waits to be switched off.
    pub open spec fn wf(self) -> bool {
        self.off_started is Some ==> self.on
    }

    /// A speaker that was not switched on yet.
    pub open spec fn initial() -> SpeakerState {
        SpeakerState { on: false, off_started: None }
    }

    /// Whether the wait for the speaker to be switched off is over.
    pub open spec fn wait_over(self, now: u128, wait_secs: u64) -> bool {
        self.off_started matches Some(from) && elapsed(from, now) >= wait_secs * NANOS_PER_SEC
    }

    /// What a cycle does with a speaker that is controlled: it is switched on
    /// once there is audio, and switched off when there is none and the wait is
    /// over. The wait begins with a cycle without audio, and only a command ends it.
    pub open spec fn command(self, input: SpeakerInput, wait_secs: u64) -> Option<SpeakerCommand> {
        if input.has_audio && !self.on {
            Some(SpeakerCommand::TurnOn)
        } else if !input.has_audio && self.on && self.wait_over(input.now, wait_secs) {
            Some(SpeakerCommand::TurnOff)
        } else {
            None
        }
    }

    /// The speaker after a cycle.
    pub open spec fn after(self, input: SpeakerInput, wait_secs: u64) -> SpeakerState {
        match self.command(input, wait_secs) {
            Some(command) => SpeakerState { on: command is TurnOn, off_started: None },
            None => SpeakerState {
                on: self.on,
                off_started: if !input.has_audio && self.on && self.off_started is None {
                    Some(input.now)
                } else {
                    self.off_started
                },
            },
        }
    }

    /// A speaker that was not switched on yet.
    pub fn new() -> (state: SpeakerState)
        ensures
            state == SpeakerState::initial(),
            state.wf(),
    {
        SpeakerState { on: false, off_started: None }
    }

    /// Goes through one cycle with a speaker that is controlled, and says what
    /// is to be done.
    pub fn step(&mut self, input: SpeakerInput, wait_secs: u64) -> (command: Option<SpeakerCommand>)
        ensures
            command == old(self).command(input, wait_secs),
            *final(self) == old(self).after(input, wait_secs),
            command is Some <==> final(self).on != old(self).on,
            command is Some ==> final(self).off_started is None,
            command matches Some(given) ==> (given is TurnOn <==> final(self).on),
            command == Some(SpeakerCommand::TurnOn) <==> input.has_audio && !old(self).on,
            old(self).wf() ==> final(self).wf(),
    {
        if input.has_audio {
            if !self.on {
                self.on = true;
                self.off_started = None;
                return Some(SpeakerCommand::TurnOn);
            }
        } else if self.on {
            match self.off_started {
                None => {
                    self.off_started = Some(input.now);
                },
                Some(from) => {
                    let waited: u128 = if input.now >= from {
                        input.now - from
                    } else {
                        0
                    };
                    if waited >= wait_secs as u128 * NANOS_PER_SEC {
                        self.on = false;
                        self.off_started = None;
                        return Some(SpeakerCommand::TurnOff);
                    }
                },
            }
        }
        None
    }
}

/// The speaker after a series of cycles.
pub open spec fn speaker_after(inputs: Seq<SpeakerInput>, wait_secs: u64) -> SpeakerState
    decreases inputs.len(),
{
    if inputs.len() == 0 {
        SpeakerState::initial()
    } else {
        speaker_after(inputs.drop_last(), wait_secs).after(inputs.last(), wait_secs)
    }
}

/// The command of the cycle at index `k` of a series.
pub open spec fn command_at(inputs: Seq<SpeakerInput>, wait_secs: u64, k: int) -> Option<
    SpeakerCommand,
> {
    speaker_after(inputs.take(k), wait_secs).command(inputs[k], wait_secs)
}

/// Whether no cycle from index `from` up to index `to` has a command.
pub open spec fn quiet(inputs: Seq<SpeakerInput>, wait_secs: u64, from: int, to: int) -> bool {
    forall|j: int| from <= j < to ==> #[trigger] command_at(inputs, wait_secs, j) is None
}

proof fn lemma_next_state(inputs: Seq<SpeakerInput>, wait_secs: u64, k: int)
    requires
        0 <= k < inputs.len(),
    ensures
        speaker_after(inputs.take(k + 1), wait_secs) == speaker_after(
            inputs.take(k),
            wait_secs,
        ).after(inputs[k], wait_secs),
{
    assert(inputs.take(k + 1).drop_last() =~= inputs.take(k));
    assert(inputs.take(k + 1).last() == inputs[k]);
}

proof fn lemma_quiet_keeps_on(inputs: Seq<SpeakerInput>, wait_secs: u64, from: int, to: int)
    requires
        0 <= from <= to <= inputs.len(),
        quiet(inputs, wait_secs, from, to),
    ensures
        speaker_after(inputs.take(to), wait_secs).on == speaker_after(
            inputs.take(from),
            wait_secs,
        ).on,
    decreases to - from,
{
    if from < to {
        assert(quiet(inputs, wait_secs, from, to - 1));
        lemma_quiet_keeps_on(inputs, wait_secs, from, to - 1);
        lemma_next_state(inputs, wait_secs, to - 1);
        assert(command_at(inputs, wait_secs, to - 1) is None);
    }
}

proof fn lemma_wait_began(inputs: Seq<SpeakerInput>, wait_secs: u64, n: int) -> (i: int)
    requires
        0 <= n <= inputs.len(),
        speaker_after(inputs.take(n), wait_secs).off_started is Some,
    ensures
        0 <= i < n,
        !inputs[i].has_audio,
        speaker_after(inputs.take(n), wait_secs).off_started == Some(inputs[i].now),
        quiet(inputs, wait_secs, i, n),
    decreases n,
{
    assert(n > 0);
    let before = speaker_after(inputs.take(n - 1), wait_secs);
    lemma_next_state(inputs, wait_secs, n - 1);
    assert(command_at(inputs, wait_secs, n - 1) is None);
    if before.off_started is Some {
        lemma_wait_began(inputs, wait_secs, n - 1)
    } else {
        n - 1
    }
}

/// Commands alternate: the first one switches the speaker on, and of two
/// commands with none between them one switches it on and the other off.
pub proof fn law_commands_alternate(inputs: Seq<SpeakerInput>, wait_secs: u64, i: int, k: int)
    requires
        -1 <= i < k < inputs.len(),
        quiet(inputs, wait_secs, i + 1, k),
        command_at(inputs, wait_secs, k) is Some,
    ensures
        i == -1 ==> command_at(inputs, wait_secs, k) == Some(SpeakerCommand::TurnOn),
        i >= 0 && command_at(inputs, wait_secs, i) is Some ==> command_at(inputs, wait_secs, i)
            != command_at(inputs, wait_secs, k),
{
    lemma_quiet_keeps_on(inputs, wait_secs, i + 1, k);
    if i == -1 {
        assert(inputs.take(0) =~= Seq::<SpeakerInput>::empty());
    } else {
        lemma_next_state(inputs, wait_secs, i);
    }
}

/// The speaker is never switched off before its time: when it is switched off,
/// a cycle without audio lies at least the wait back, and the speaker was left
/// alone from that cycle on.
pub proof fn law_off_only_after_the_wait(inputs: Seq<SpeakerInput>, wait_secs: u64, k: int)
    requires
        0 <= k < inputs.len(),
        command_at(inputs, wait_secs, k) == Some(SpeakerCommand::TurnOff),
    ensures
        !inputs[k].has_audio,
        exists|i: int|
            #![trigger inputs[i]]
            0 <= i < k && !inputs[i].has_audio && elapsed(inputs[i].now, inputs[k].now) >= wait_secs
                * NANOS_PER_SEC && quiet(inputs, wait_secs, i, k),
{
    let i = lemma_wait_began(inputs, wait_secs, k);
    assert(!inputs[i].has_audio);
}

/// After a cycle with audio the speaker is on.
pub proof fn law_audio_finds_the_speaker_on(
    state: SpeakerState,
    input: SpeakerInput,
    wait_secs: u64,
)
    requires
        input.has_audio,
    ensures
        state.after(input, wait_secs).on,
{
}

/// Once there is no audio, two cycles that lie at least the wait apart leave
/// the speaker off.
pub proof fn law_silence_switches_off(
    state: SpeakerState,
    first: SpeakerInput,
    later: SpeakerInput,
    wait_secs: u64,
)
    requires
        state.wf(),
        state.off_started matches Some(from) ==> from <= first.now,
        !first.has_audio,
        !later.has_audio,
        later.now >= first.now + wait_secs * NANOS_PER_SEC,
    ensures
        !state.after(first, wait_secs).after(later, wait_secs).on,
{
}

/// Whether cycle `s` is the first one after cycle `j` without audio.
pub open spec fn first_silence(inputs: Seq<SpeakerInput>, j: int, s: int) -> bool {
    &&& j < s < inputs.len()
    &&& !inputs[s].has_audio
    &&& forall|t: int| j < t < s ==> (#[trigger] inputs[t]).has_audio
}

proof fn lemma_wait_from_first_silence(
    inputs: Seq<SpeakerInput>,
    wait_secs: u64,
    j: int,
    s: int,
    k: int,
)
    requires
        0 <= j < k <= inputs.len(),
        command_at(inputs, wait_secs, j) == Some(SpeakerCommand::TurnOn),
        quiet(inputs, wait_secs, j + 1, k),
        first_silence(inputs, j, s),
    ensures
        speaker_after(inputs.take(k), wait_secs).on,
        speaker_after(inputs.take(k), wait_secs).off_started == (if k <= s {
            None
        } else {
            Some(inputs[s].now)
        }),
    decreases k,
{
    lemma_next_state(inputs, wait_secs, k - 1);
    if k > j + 1 {
        lemma_wait_from_first_silence(inputs, wait_secs, j, s, k - 1);
        assert(command_at(inputs, wait_secs, k - 1) is None);
        if k - 1 < s {
            assert(inputs[k - 1].has_audio);
        }
    }
}

/// Exactly when the speaker is switched off: let it be switched on in cycle `j`
/// and left alone up to cycle `i`, and let `s` be the first cycle after `j`
/// without audio. Then cycle `i` switches it off if and only if it comes after
/// `s`, has no audio, and lies at least the wait behind `s`.
pub proof fn law_when_the_speaker_goes_off(
    inputs: Seq<SpeakerInput>,
    wait_secs: u64,
    j: int,
    s: int,
    i: int,
)
    requires
        0 <= j < i < inputs.len(),
        command_at(inputs, wait_secs, j) == Some(SpeakerCommand::TurnOn),
        quiet(inputs, wait_secs, j + 1, i),
        first_silence(inputs, j, s),
    ensures
        command_at(inputs, wait_secs, i) == Some(SpeakerCommand::TurnOff) <==> !inputs[i].has_audio
            && i > s && elapsed(inputs[s].now, inputs[i].now) >= wait_secs * NANOS_PER_SEC,
{
    lemma_wait_from_first_silence(inputs, wait_secs, j, s, i);
}

/// Slashes at the end of the host, however many, make no difference to the URL.
pub proof fn law_host_slashes_do_not_count(host: Seq<char>, n: nat, service: Seq<char>)
    ensures
        service_url(host + Seq::new(n, |i: int| '/'), service) == service_url(host, service),
    decreases n,
{
    let longer = host + Seq::new(n, |i: int| '/');
    if n == 0 {
        assert(longer =~= host);
    } else {
        let fewer = (n - 1) as nat;
        assert(longer.drop_last() =~= host + Seq::new(fewer, |i: int| '/'));
        law_host_slashes_do_not_count(host, fewer, service);
    }
}

/// When a cycle switches the speaker: on if and only if there is audio and the
/// speaker is off; off if and only if there is none, the speaker is on, and the
/// wait that has begun is over. Whenever a cycle changes whether the speaker
/// counts as on, it hands out the command that makes that change, and a command
/// ends the wait. A cycle without a command begins the wait if there is no audio,
/// the speaker is on and none has begun, and else leaves the speaker as it was.
pub proof fn law_cycle_switches_the_speaker(
    state: SpeakerState,
    input: SpeakerInput,
    wait_secs: u64,
)
    ensures
        state.command(input, wait_secs) == Some(SpeakerCommand::TurnOn) <==> input.has_audio
            && !state.on,
        state.command(input, wait_secs) == Some(SpeakerCommand::TurnOff) <==> !input.has_audio
            && state.on && (state.off_started matches Some(from) && (wait_secs == 0 || input.now
            - from >= wait_secs * 1_000_000_000)),
        state.after(input, wait_secs).on != state.on <==> state.command(input, wait_secs) is Some,
        state.command(input, wait_secs) matches Some(command) ==> state.after(
            input,
            wait_secs,
        ).off_started is None && (state.after(input, wait_secs).on <==> command is TurnOn),
        state.command(input, wait_secs) is None ==> state.after(input, wait_secs).off_started == (
        if !input.has_audio && state.on && state.off_started is None {
            Some(input.now)
        } else {
            state.off_started
        }),
        !SpeakerState::initial().on,
        SpeakerState::initial().off_started is None,
{
}

/// The URL of a service ends with the path of the services and the service, and
/// what stands before that is the host with nothing but slashes cut off its
/// end, and all of them.
pub proof fn law_url_of_a_service(host: Seq<char>, service: Seq<char>)
    ensures
        exists|base: Seq<char>|
            service_url(host, service) == #[trigger] (base + ("/api/services/"@ + service))
                && base.len() <= host.len() && (forall|i: int|
                0 <= i < base.len() ==> #[trigger] base[i] == host[i]) && (forall|i: int|
                base.len() <= i < host.len() ==> #[trigger] host[i] == '/') && (base.len() > 0
                ==> base[base.len() - 1] != '/'),
        host.len() == 0 || host[host.len() - 1] != '/' ==> service_url(host, service) == host
            + "/api/services/"@ + service,
{
    let base = crate::text::without_trailing(host, '/');
    crate::text::law_trimmed_end(host, '/');
    assert(service_url(host, service) =~= base + ("/api/services/"@ + service));
    assert forall|i: int| 0 <= i < base.len() implies #[trigger] base[i] == host[i] by {
        assert(base == host.subrange(0, base.len() as int));
    }
}

/// A request calls the service for the entity of the settings, with their token.
pub proof fn law_request_is_for_the_settings(
    request: SpeakerRequest,
    ha: HaSettings,
    service: Seq<char>,
)
    ensures
        calls_service(request, ha, service) <==> request.url@ == service_url(ha.host@, service)
            && request.token@ == ha.token@ && request.body@ == crate::json::json_entry(
            "entity_id"@,
            ha.entity@,
        ),
{
}

/// Each command has its own service.
pub proof fn law_services_of_the_commands(command: SpeakerCommand)
    ensures
        command.service_text() == (if command is TurnOn {
            "switch/turn_on"@
        } else {
            "switch/turn_off"@
        }),
{
}

/// Exactly when the speaker is switched on: let it be off since cycle `j`, which
/// switched it off, or since the start, for which `j` is -1, and left alone up to
/// cycle `i`. Then cycle `i` switches it on if and only if it has audio.
pub proof fn law_when_the_speaker_goes_on(
    inputs: Seq<SpeakerInput>,
    wait_secs: u64,
    j: int,
    i: int,
)
    requires
        -1 <= j < i < inputs.len(),
        j >= 0 ==> command_at(inputs, wait_secs, j) == Some(SpeakerCommand::TurnOff),
        quiet(inputs, wait_secs, j + 1, i),
    ensures
        command_at(inputs, wait_secs, i) == Some(SpeakerCommand::TurnOn) <==> inputs[i].has_audio,
        command_at(inputs, wait_secs, i) != Some(SpeakerCommand::TurnOff),
{
    lemma_quiet_keeps_on(inputs, wait_secs, j + 1, i);
    if j == -1 {
        assert(inputs.take(0) =~= Seq::<SpeakerInput>::empty());
    } else {
        lemma_next_state(inputs, wait_secs, j);
    }
}

} // verus!
