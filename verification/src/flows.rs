//! Audio flows of PipeWire: which of the nodes play sound.

use crate::text::same_text;
use std::collections::HashSet;
use vstd::prelude::*;

verus! {

broadcast use vstd::std_specs::hash::group_hash_axioms;

/// The media class of a node through which an application plays sound.
pub const AUDIO_FLOW_CLASS: &'static str = "Stream/Output/Audio";

/// The state of a PipeWire node.
#[derive(Debug, Clone, Copy, PartialEq, Eq, Structural)]
pub enum NodeState {
    /// The node is in an error state.
    Error,
    /// The node is being created.
    Creating,
    /// The node is suspended.
    Suspended,
    /// The node is open and waits for data.
    Idle,
    /// The node runs.
    Running,
}

/// An object that the PipeWire registry announces.
#[derive(Debug)]
pub struct GlobalObject {
    /// The id of the object.
    pub id: u32,
    /// Whether the object is a node.
    pub is_node: bool,
    /// The property `media.class` of the object, where it has one.
    pub media_class: Option<String>,
}

/// What PipeWire reports while it is watched.
#[derive(Debug)]
pub enum MonitorEvent {
    /// An object appeared.
    Global(GlobalObject),
    /// A node that is listened to is in this state.
    NodeInfo(u32, NodeState),
    /// The object with this id is gone.
    GlobalRemoved(u32),
}

/// What is to be done about a [`MonitorEvent`].
#[derive(Debug, Clone, Copy, PartialEq, Eq, Structural)]
pub enum MonitorAction {
    /// Nothing.
    Ignore,
    /// Bind the node that appeared and listen to its state.
    Listen,
}

/// Whether there is an active flow.
pub open spec fn any_active(flows: Set<u32>) -> bool {
    exists|id: u32| flows.contains(id)
}

/// Whether an object is a node through which an application plays sound.
pub open spec fn is_flow(object: GlobalObject) -> bool {
    &&& object.is_node
    &&& object.media_class matches Some(class)
    &&& class@ == AUDIO_FLOW_CLASS@
}

/// Whether a node in this state counts as an active flow.
pub open spec fn is_live(state: NodeState) -> bool {
    state is Running || state is Idle
}

/// Whether an event tells whether the flow with this id is active.
pub open spec fn concerns(event: MonitorEvent, id: u32) -> bool {
    match event {
        MonitorEvent::Global(_) => false,
        MonitorEvent::NodeInfo(of, _) => of == id,
        MonitorEvent::GlobalRemoved(of) => of == id,
    }
}

/// Whether an event makes the flow that it concerns active.
pub open spec fn activates(event: MonitorEvent) -> bool {
    event matches MonitorEvent::NodeInfo(_, state) && is_live(state)
}

/// The active flows after an event.
pub open spec fn flows_after(flows: Set<u32>, event: MonitorEvent) -> Set<u32> {
    match event {
        MonitorEvent::Global(_) => flows,
        MonitorEvent::NodeInfo(id, state) => if is_live(state) {
            flows.insert(id)
        } else {
            flows.remove(id)
        },
        MonitorEvent::GlobalRemoved(id) => flows.remove(id),
    }
}

/// The active flows after a series of events.
pub open spec fn flows_after_all(flows: Set<u32>, events: Seq<MonitorEvent>) -> Set<u32>
    decreases events.len(),
{
    if events.len() == 0 {
        flows
    } else {
        flows_after(flows_after_all(flows, events.drop_last()), events.last())
    }
}

/// Whether an object is a node through which an application plays sound.
pub fn is_audio_flow(object: &GlobalObject) -> (flow: bool)
    ensures
        flow == is_flow(*object),
        flow <==> object.is_node && (object.media_class matches Some(class) && class@
            == "Stream/Output/Audio"@),
{
    if !object.is_node {
        return false;
    }
    match &object.media_class {
        Some(class) => same_text(class.as_str(), AUDIO_FLOW_CLASS),
        None => false,
    }
}

/// What is known of PipeWire: the ids of the flows that are active.
#[derive(Debug)]
pub struct PipeWireState {
    pub active_flows: HashSet<u32>,
}

impl View for PipeWireState {
    type V = Set<u32>;

    open spec fn view(&self) -> Set<u32> {
        self.active_flows@
    }
}

impl Default for PipeWireState {
    fn default() -> (state: PipeWireState)
        ensures
            state@ == Set::<u32>::empty(),
    {
        PipeWireState { active_flows: HashSet::new() }
    }
}

impl PipeWireState {
    /// Whether any flow is active.
    pub fn has_active_audio(&self) -> (active: bool)
        ensures
            active == any_active(self@),
            active <==> exists|id: u32| self@.contains(id),
            active <==> exists|id: u32| self.active_flows@.contains(id),
    {
        proof {
            assert(!any_active(self@) ==> self@ =~= Set::empty());
        }
        !self.active_flows.is_empty()
    }

    /// Takes in an event, and says what is to be done about it.
    pub fn observe(&mut self, event: &MonitorEvent) -> (action: MonitorAction)
        ensures
            final(self)@ == flows_after(old(self)@, *event),
            action is Listen <==> (*event matches MonitorEvent::Global(object) && is_flow(object)),
            forall|id: u32| #[trigger]
                final(self)@.contains(id) <==> (match *event {
                    MonitorEvent::NodeInfo(of, state) if of == id => state is Running
                        || state is Idle,
                    MonitorEvent::GlobalRemoved(of) if of == id => false,
                    _ => old(self)@.contains(id),
                }),
    {
        match event {
            MonitorEvent::Global(object) => if is_audio_flow(object) {
                MonitorAction::Listen
            } else {
                MonitorAction::Ignore
            },
            MonitorEvent::NodeInfo(id, state) => {
                match state {
                    NodeState::Running | NodeState::Idle => {
                        self.active_flows.insert(*id);
                    },
                    _ => {
                        self.active_flows.remove(id);
                    },
                }
                MonitorAction::Ignore
            },
            MonitorEvent::GlobalRemoved(id) => {
                self.active_flows.remove(id);
                MonitorAction::Ignore
            },
        }
    }
}

/// The last event that concerned a flow decides whether it is active: it is if
/// and only if that event said that its node runs or idles. A flow that no event
/// concerned is as it was.
pub proof fn law_last_event_decides(flows: Set<u32>, events: Seq<MonitorEvent>, id: u32)
    ensures
        (forall|k: int| 0 <= k < events.len() ==> !concerns(#[trigger] events[k], id))
            ==> flows_after_all(flows, events).contains(id) == flows.contains(id),
        forall|k: int|
            0 <= k < events.len() && concerns(#[trigger] events[k], id) && (forall|j: int|
                k < j < events.len() ==> !concerns(#[trigger] events[j], id))
                ==> flows_after_all(flows, events).contains(id) == activates(events[k]),
    decreases events.len(),
{
    if events.len() > 0 {
        let rest = events.drop_last();
        let n = rest.len() as int;
        law_last_event_decides(flows, rest, id);
        assert(forall|k: int| 0 <= k < n ==> #[trigger] rest[k] == events[k]);
        if forall|k: int| 0 <= k < events.len() ==> !concerns(#[trigger] events[k], id) {
            assert(!concerns(events[n], id));
        }
        assert forall|k: int|
            0 <= k < events.len() && concerns(#[trigger] events[k], id) && (forall|j: int|
                k < j < events.len() ==> !concerns(#[trigger] events[j], id)) implies flows_after_all(
            flows,
            events,
        ).contains(id) == activates(events[k]) by {
            if k < n {
                assert(!concerns(events[n], id));
                assert(concerns(rest[k], id));
            }
        }
    }
}

/// What PipeWire says of one flow changes nothing about the others.
pub proof fn law_other_flows_stay(flows: Set<u32>, event: MonitorEvent, other: u32)
    requires
        !concerns(event, other),
    ensures
        flows_after(flows, event).contains(other) == flows.contains(other),
{
}

/// What an event does to a flow: a report that its node runs or idles makes it
/// active, any other report of its state and the end of its node make it
/// inactive, and nothing else touches it.
pub proof fn law_event_decides_about_its_flow(
    flows: Set<u32>,
    id: u32,
    state: NodeState,
    other: u32,
    object: GlobalObject,
)
    ensures
        flows_after(flows, MonitorEvent::NodeInfo(id, state)).contains(id) <==> state
            == NodeState::Running || state == NodeState::Idle,
        !flows_after(flows, MonitorEvent::GlobalRemoved(id)).contains(id),
        other != id ==> flows_after(flows, MonitorEvent::NodeInfo(id, state)).contains(other)
            == flows.contains(other),
        other != id ==> flows_after(flows, MonitorEvent::GlobalRemoved(id)).contains(other)
            == flows.contains(other),
        flows_after(flows, MonitorEvent::Global(object)) == flows,
{
}

/// There is audio if and only if some flow is active: any flow makes for audio,
/// the empty set has none, and a further flow never ends it.
pub proof fn law_any_flow_is_audio(flows: Set<u32>, id: u32)
    ensures
        flows.contains(id) ==> any_active(flows),
        any_active(flows.insert(id)),
        !any_active(Set::empty()),
        any_active(flows) ==> exists|some: u32| flows.contains(some),
{
    assert(flows.insert(id).contains(id));
}

/// After any events there is audio if and only if for some flow the last event
/// that concerned it said that its node runs or idles.
pub proof fn law_audio_after_events(events: Seq<MonitorEvent>)
    ensures
        any_active(flows_after_all(Set::empty(), events)) <==> exists|k: int|
            0 <= k < events.len() && (#[trigger] events[k] matches MonitorEvent::NodeInfo(
                id,
                state,
            ) && (state is Running || state is Idle) && forall|j: int|
                k < j < events.len() ==> match #[trigger] events[j] {
                    MonitorEvent::Global(_) => true,
                    MonitorEvent::NodeInfo(of, _) => of != id,
                    MonitorEvent::GlobalRemoved(of) => of != id,
                }),
{
    let after = flows_after_all(Set::empty(), events);
    if any_active(after) {
        let id = choose|id: u32| after.contains(id);
        law_last_event_decides(Set::empty(), events, id);
        let k = lemma_last_concern(events, id);
        assert(activates(events[k]));
        assert(forall|j: int| k < j < events.len() ==> !concerns(#[trigger] events[j], id));
    }
    assert forall|k: int|
        0 <= k < events.len() && (#[trigger] events[k] matches MonitorEvent::NodeInfo(id, state) && (
        state is Running || state is Idle) && forall|j: int|
            k < j < events.len() ==> match #[trigger] events[j] {
                MonitorEvent::Global(_) => true,
                MonitorEvent::NodeInfo(of, _) => of != id,
                MonitorEvent::GlobalRemoved(of) => of != id,
            }) implies any_active(after) by {
        let id = events[k]->NodeInfo_0;
        law_last_event_decides(Set::empty(), events, id);
        assert(concerns(events[k], id));
        assert(forall|j: int| k < j < events.len() ==> !concerns(#[trigger] events[j], id));
        assert(after.contains(id));
    }
}

proof fn lemma_last_concern(events: Seq<MonitorEvent>, id: u32) -> (k: int)
    requires
        exists|k: int| 0 <= k < events.len() && concerns(#[trigger] events[k], id),
    ensures
        0 <= k < events.len(),
        concerns(events[k], id),
        forall|j: int| k < j < events.len() ==> !concerns(#[trigger] events[j], id),
    decreases events.len(),
{
    let n = events.len() - 1;
    if concerns(events[n], id) {
        n
    } else {
        let rest = events.drop_last();
        let some = choose|k: int| 0 <= k < events.len() && concerns(#[trigger] events[k], id);
        assert(concerns(rest[some], id));
        let k = lemma_last_concern(rest, id);
        assert forall|j: int| k < j < events.len() implies !concerns(#[trigger] events[j], id) by {
            if j < n {
                assert(!concerns(rest[j], id));
            }
        }
        k
    }
}

/// A flow is a node whose media class is that of an application playing sound.
pub proof fn law_what_a_flow_is(object: GlobalObject)
    ensures
        is_flow(object) <==> object.is_node && (object.media_class matches Some(class) && class@
            == "Stream/Output/Audio"@),
{
}

/// The state stands for the ids that it holds.
pub proof fn law_what_the_state_stands_for(state: PipeWireState, id: u32)
    ensures
        state@.contains(id) <==> state.active_flows@.contains(id),
{
}

} // verus!
