//! The swayidle process: when it is started and when it is stopped.

use crate::command::{pkill_command, swayidle_command, CommandLine};
use crate::settings::SwayIdleSettings;
use vstd::prelude::*;

verus! {

/// The swayidle process that is managed, with the handle `C` of the process.
#[derive(Debug)]
pub struct InhibitState<C> {
    pub swayidle_running: bool,
    pub child: Option<C>,
}

/// What is to be done about the swayidle process.
#[derive(Debug)]
pub enum SwayidleAction<C> {
    /// Nothing.
    Nothing,
    /// Run this command and hand the process to [`InhibitState::on_spawn`].
    Start(CommandLine),
    /// Kill this process and wait for its end.
    Stop(C),
}

/// Whether an action is to start swayidle with the given configuration file.
pub open spec fn starts_with_config<C>(action: SwayidleAction<C>, config_path: Seq<char>) -> bool {
    action matches SwayidleAction::Start(command) && command.is(
        "swayidle"@,
        seq!["-w"@, "-C"@, config_path],
    )
}

/// Whether an action is what it takes to have swayidle run or not run: to start
/// it where it is managed, is wanted and does not run; to stop the process that
/// is held where it is managed, is not wanted and runs; else nothing.
pub open spec fn is_set_action<C>(
    state: InhibitState<C>,
    settings: SwayIdleSettings,
    running: bool,
    action: SwayidleAction<C>,
) -> bool {
    if settings.enabled && running && !state.swayidle_running && state.child is None {
        starts_with_config(action, settings.config_path@)
    } else if settings.enabled && !running && state.swayidle_running && state.child is Some {
        action == SwayidleAction::Stop(state.child->0)
    } else {
        action is Nothing
    }
}

impl<C> InhibitState<C> {
    /// A process is held if and only if swayidle runs.
    pub open spec fn wf(self) -> bool {
        self.swayidle_running <==> self.child is Some
    }

    /// No process is held.
    pub open spec fn stopped() -> InhibitState<C> {
        InhibitState { swayidle_running: false, child: None }
    }

    /// The state after swayidle was asked to run or not to run, before the
    /// action that this calls for.
    pub open spec fn after_set(self, enabled: bool, running: bool) -> InhibitState<C> {
        if !enabled || self.swayidle_running == running {
            self
        } else if !running {
            InhibitState::stopped()
        } else if self.child is Some {
            InhibitState { swayidle_running: true, ..self }
        } else {
            self
        }
    }

    /// The state after the command that starts swayidle was run; `None` stands
    /// for a command that failed.
    pub open spec fn after_spawn(self, spawned: Option<C>) -> InhibitState<C> {
        match spawned {
            Some(child) => InhibitState { swayidle_running: true, child: Some(child) },
            None => self,
        }
    }

    /// The state without a process.
    pub fn new() -> (state: InhibitState<C>)
        ensures
            state == InhibitState::<C>::stopped(),
            state.wf(),
    {
        InhibitState { swayidle_running: false, child: None }
    }

    /// Takes swayidle over: where it is managed, any that was started elsewhere
    /// is to be ended by the command that is returned, and none counts as running.
    pub fn take_over(&mut self, settings: &SwayIdleSettings) -> (command: Option<CommandLine>)
        ensures
            command is Some <==> settings.enabled,
            command matches Some(pkill) ==> pkill.is("pkill"@, seq!["-x"@, "swayidle"@]),
            *final(self) == (if settings.enabled {
                InhibitState::<C>::stopped()
            } else {
                *old(self)
            }),
            old(self).wf() ==> final(self).wf(),
    {
        if settings.enabled {
            self.child = None;
            self.swayidle_running = false;
            Some(pkill_command())
        } else {
            None
        }
    }

    /// Asks for swayidle to run or not to run.
    pub fn set_swayidle(&mut self, settings: &SwayIdleSettings, running: bool) -> (action:
        SwayidleAction<C>)
        ensures
            *final(self) == old(self).after_set(settings.enabled, running),
            old(self).wf() ==> final(self).wf(),
            is_set_action(*old(self), *settings, running, action),
            action matches SwayidleAction::Stop(child) ==> old(self).child == Some(child),
            action is Stop <==> old(self).child is Some && final(self).child is None,
            action is Start <==> settings.enabled && running && !old(self).swayidle_running
                && old(self).child is None,
            final(self).child is Some ==> final(self).child == old(self).child,
            settings.enabled && !running ==> !final(self).swayidle_running,
            !settings.enabled ==> *final(self) == *old(self),
    {
        if !settings.enabled {
            return SwayidleAction::Nothing;
        }
        if self.swayidle_running == running {
            return SwayidleAction::Nothing;
        }
        if running {
            if self.child.is_none() {
                SwayidleAction::Start(swayidle_command(settings.config_path.as_str()))
            } else {
                self.swayidle_running = true;
                SwayidleAction::Nothing
            }
        } else {
            self.swayidle_running = false;
            match self.child.take() {
                Some(child) => SwayidleAction::Stop(child),
                None => SwayidleAction::Nothing,
            }
        }
    }

    /// Takes in the process that the command that starts swayidle made, or that
    /// it made none.
    pub fn on_spawn(&mut self, spawned: Option<C>)
        requires
            old(self).child is None,
        ensures
            *final(self) == old(self).after_spawn(spawned),
            old(self).wf() ==> final(self).wf(),
            final(self).child == spawned,
            spawned is Some ==> final(self).swayidle_running,
            spawned is None ==> *final(self) == *old(self),
    {
        if spawned.is_some() {
            self.child = spawned;
            self.swayidle_running = true;
        }
    }
}

/// The state after one cycle: swayidle is asked to run unless idling is to be
/// inhibited, and where that calls for a start, `spawned` is what came of it.
pub open spec fn after_cycle<C>(
    state: InhibitState<C>,
    enabled: bool,
    inhibit: bool,
    spawned: Option<C>,
) -> InhibitState<C> {
    let set = state.after_set(enabled, !inhibit);
    if enabled && !inhibit && !state.swayidle_running && state.child is None {
        set.after_spawn(spawned)
    } else {
        set
    }
}

/// The state after a series of cycles that starts without a process.
pub open spec fn after_cycles<C>(
    enabled: bool,
    inhibits: Seq<bool>,
    spawns: Seq<Option<C>>,
) -> InhibitState<C>
    decreases inhibits.len(),
{
    if inhibits.len() == 0 {
        InhibitState::stopped()
    } else {
        after_cycle(
            after_cycles(enabled, inhibits.drop_last(), spawns.drop_last()),
            enabled,
            inhibits.last(),
            spawns.last(),
        )
    }
}

/// Whether a process was started in cycle `k`, before which none was held, and
/// was held ever since then, while no cycle inhibited idling.
pub open spec fn held_since<C>(
    enabled: bool,
    inhibits: Seq<bool>,
    spawns: Seq<Option<C>>,
    child: C,
    k: int,
) -> bool {
    &&& 0 <= k < spawns.len()
    &&& spawns[k] == Some(child)
    &&& after_cycles(enabled, inhibits.take(k), spawns.take(k)).child is None
    &&& forall|j: int| k <= j < inhibits.len() ==> !#[trigger] inhibits[j]
    &&& forall|j: int|
        k < j <= inhibits.len() ==> after_cycles(
            enabled,
            #[trigger] inhibits.take(j),
            spawns.take(j),
        ).child == Some(child)
}

/// After a cycle in which idling was to be inhibited swayidle does not run, and
/// after one in which it was not, swayidle runs if it ran before or could be
/// started.
pub proof fn law_swayidle_follows_inhibition<C>(
    state: InhibitState<C>,
    inhibit: bool,
    spawned: Option<C>,
)
    requires
        state.wf(),
    ensures
        after_cycle(state, true, inhibit, spawned).wf(),
        after_cycle(state, true, inhibit, spawned).swayidle_running <==> !inhibit && (
        state.swayidle_running || spawned is Some),
{
}

/// Where swayidle is not managed no cycle changes anything.
pub proof fn law_unmanaged_swayidle_is_left_alone<C>(
    state: InhibitState<C>,
    inhibit: bool,
    spawned: Option<C>,
)
    ensures
        after_cycle(state, false, inhibit, spawned) == state,
{
}

/// Asking for what already is changes nothing.
pub proof fn law_set_twice_is_set_once<C>(state: InhibitState<C>, enabled: bool, running: bool)
    ensures
        state.after_set(enabled, running).after_set(enabled, running) == state.after_set(
            enabled,
            running,
        ),
{
}

/// Whatever the cycles were, the process that is held came from the start in
/// some cycle before which none was held, no cycle from that one on inhibited
/// idling, and the same process was held all the time since then.
pub proof fn law_held_process_was_started_last<C>(
    enabled: bool,
    inhibits: Seq<bool>,
    spawns: Seq<Option<C>>,
)
    requires
        inhibits.len() == spawns.len(),
    ensures
        after_cycles(enabled, inhibits, spawns).wf(),
        !enabled ==> after_cycles(enabled, inhibits, spawns) == InhibitState::<C>::stopped(),
        after_cycles(enabled, inhibits, spawns).child matches Some(child) ==> exists|k: int|
            #[trigger] held_since(enabled, inhibits, spawns, child, k),
    decreases inhibits.len(),
{
    if inhibits.len() > 0 {
        let n = inhibits.len() - 1;
        let fewer = inhibits.drop_last();
        let fewer_spawns = spawns.drop_last();
        let before = after_cycles(enabled, fewer, fewer_spawns);
        let after = after_cycles(enabled, inhibits, spawns);
        law_held_process_was_started_last(enabled, fewer, fewer_spawns);
        assert(inhibits.take(n) =~= fewer && spawns.take(n) =~= fewer_spawns);
        assert(inhibits.take(n + 1) =~= inhibits && spawns.take(n + 1) =~= spawns);
        if after.child is Some {
            let child = after.child->0;
            if before.child is Some {
                let k = choose|k: int| #[trigger]
                    held_since(enabled, fewer, fewer_spawns, child, k);
                assert forall|j: int| 0 <= j <= n implies (#[trigger] inhibits.take(j))
                    == fewer.take(j) && spawns.take(j) == fewer_spawns.take(j) by {
                    assert(inhibits.take(j) =~= fewer.take(j));
                    assert(spawns.take(j) =~= fewer_spawns.take(j));
                }
                assert(inhibits.take(k) == fewer.take(k));
                assert forall|j: int| k <= j < inhibits.len() implies !#[trigger] inhibits[j] by {
                    if j < n {
                        assert(fewer[j] == inhibits[j]);
                    }
                }
                assert forall|j: int| k < j <= inhibits.len() implies after_cycles(
                    enabled,
                    #[trigger] inhibits.take(j),
                    spawns.take(j),
                ).child == Some(child) by {
                    if j <= n {
                        assert(inhibits.take(j) == fewer.take(j));
                    }
                }
                assert(held_since(enabled, inhibits, spawns, child, k));
            } else {
                assert(held_since(enabled, inhibits, spawns, child, n));
            }
        }
    }
}

/// No process is lost: a request gives up the process that is held if and only
/// if the action is to stop it, whatever else the settings are, and the process
/// that is held afterwards is the one that was held before. Swayidle is started
/// if and only if it is managed, wanted, does not run and no process is held, by
/// its command with the configuration file of the settings. Where it is managed
/// and not wanted it does not run afterwards; where it is not managed nothing is
/// done.
pub proof fn law_no_process_is_lost<C>(
    state: InhibitState<C>,
    settings: SwayIdleSettings,
    running: bool,
    after: InhibitState<C>,
    action: SwayidleAction<C>,
)
    requires
        after == state.after_set(settings.enabled, running),
        is_set_action(state, settings, running, action),
    ensures
        state.child is Some && after.child is None ==> action == SwayidleAction::Stop(
            state.child->0,
        ),
        action matches SwayidleAction::Stop(child) ==> state.child == Some(child) && after.child
            is None && !after.swayidle_running,
        after.child is Some ==> after.child == state.child,
        action is Stop <==> settings.enabled && !running && state.swayidle_running && state.child
            is Some,
        action is Start <==> settings.enabled && running && !state.swayidle_running && state.child
            is None,
        action matches SwayidleAction::Start(command) ==> {
            &&& command.program@ == "swayidle"@
            &&& command.args@.len() == 3
            &&& command.args@[0]@ == "-w"@
            &&& command.args@[1]@ == "-C"@
            &&& command.args@[2]@ == settings.config_path@
        },
        settings.enabled && !running ==> !after.swayidle_running,
        settings.enabled && running && state.child is Some ==> after.swayidle_running,
        settings.enabled && running && state.child is None ==> after == state,
        state.swayidle_running == running ==> after == state && action is Nothing,
        !(action is Stop) ==> after.child == state.child,
        !settings.enabled ==> after == state && action is Nothing,
{
}

/// A process that was started is held from then on; a start that failed changes
/// nothing; and without a process swayidle does not run.
pub proof fn law_started_process_is_held<C>(state: InhibitState<C>, child: C)
    ensures
        state.after_spawn(Some(child)).child == Some(child),
        state.after_spawn(Some(child)).swayidle_running,
        state.after_spawn(None) == state,
        InhibitState::<C>::stopped().child is None,
        !InhibitState::<C>::stopped().swayidle_running,
{
}

/// In a managed run every process that was started is still held, or was handed
/// out to be stopped in a later cycle: the process of the start in cycle `k` is
/// held at the end, or there is a cycle `j` that inhibits idling, before which it
/// is held, and whose action is to stop exactly this process.
pub proof fn law_started_processes_are_held_or_stopped<C>(
    settings: SwayIdleSettings,
    inhibits: Seq<bool>,
    spawns: Seq<Option<C>>,
    k: int,
    child: C,
)
    requires
        settings.enabled,
        inhibits.len() == spawns.len(),
        0 <= k < inhibits.len(),
        !inhibits[k],
        spawns[k] == Some(child),
        after_cycles(true, inhibits.take(k), spawns.take(k)).child is None,
    ensures
        after_cycles(true, inhibits, spawns).child == Some(child) || exists|j: int|
            k < j < inhibits.len() && #[trigger] inhibits[j] && after_cycles(
                true,
                inhibits.take(j),
                spawns.take(j),
            ).child == Some(child) && forall|action: SwayidleAction<C>| #[trigger]
                is_set_action(
                    after_cycles(true, inhibits.take(j), spawns.take(j)),
                    settings,
                    false,
                    action,
                ) ==> action == SwayidleAction::Stop(child),
    decreases inhibits.len(),
{
    let n = inhibits.len() - 1;
    let fewer = inhibits.drop_last();
    let fewer_spawns = spawns.drop_last();
    let before = after_cycles(true, fewer, fewer_spawns);
    assert(inhibits.take(n) =~= fewer && spawns.take(n) =~= fewer_spawns);
    law_held_process_was_started_last(true, fewer, fewer_spawns);
    if k < n {
        assert(fewer.take(k) =~= inhibits.take(k) && fewer_spawns.take(k) =~= spawns.take(k));
        law_started_processes_are_held_or_stopped(settings, fewer, fewer_spawns, k, child);
        if before.child == Some(child) {
            if inhibits[n] {
                assert(inhibits[n]);
            }
        } else {
            let j = choose|j: int|
                k < j < fewer.len() && #[trigger] fewer[j] && after_cycles(
                    true,
                    fewer.take(j),
                    fewer_spawns.take(j),
                ).child == Some(child) && forall|action: SwayidleAction<C>| #[trigger]
                    is_set_action(
                        after_cycles(true, fewer.take(j), fewer_spawns.take(j)),
                        settings,
                        false,
                        action,
                    ) ==> action == SwayidleAction::Stop(child);
            assert(fewer.take(j) =~= inhibits.take(j) && fewer_spawns.take(j) =~= spawns.take(j));
            assert(inhibits[j]);
        }
    }
}

} // verus!
