//! The round over the media players that finds out whether one of them plays.

use crate::bus::valid_bus_name;
use crate::players::{playback_call, reply_says_playing, PlayersError};
use dbus::Message;
use vstd::prelude::*;

verus! {

/// A round over the media players, which asks one after the other for its
/// playback status and ends with the first that plays.
pub struct PlaybackScan {
    /// The bus names of the players, in the order in which they are asked.
    pub players: Vec<String>,
    /// How many of the players have had their turn.
    pub asked: usize,
    /// Whether one of them plays.
    pub playing: bool,
}

/// What a [`PlaybackScan`] stands for.
pub struct ScanState {
    pub players: Seq<Seq<char>>,
    pub asked: nat,
    pub playing: bool,
}

/// What is to be done next in a round.
pub enum ScanStep {
    /// Send this call and hand the answer to [`PlaybackScan::on_reply`].
    Ask(Message),
    /// The call could not be made, for the given reason; the player is passed over.
    Skip(String),
    /// The given name is no bus name, so there is no such call.
    BadName(String),
    /// The round is over, and this is its result.
    Done(bool),
}

impl View for PlaybackScan {
    type V = ScanState;

    open spec fn view(&self) -> ScanState {
        ScanState {
            players: crate::text::texts(self.players@),
            asked: self.asked as nat,
            playing: self.playing,
        }
    }
}

impl ScanState {
    /// No more players have had their turn than there are.
    pub open spec fn wf(self) -> bool {
        self.asked <= self.players.len()
    }

    /// The round before any player had its turn.
    pub open spec fn fresh(players: Seq<Seq<char>>) -> ScanState {
        ScanState { players, asked: 0, playing: false }
    }

    /// Whether the round is over.
    pub open spec fn over(self) -> bool {
        self.playing || self.asked >= self.players.len()
    }

    /// The round after the next player had its turn.
    pub open spec fn advanced(self) -> ScanState {
        ScanState { asked: self.asked + 1, ..self }
    }

    /// The round after a reply; `None` stands for a call that was not answered.
    pub open spec fn replied(self, reply: Option<Seq<crate::bus::Item>>) -> ScanState {
        ScanState { playing: self.playing || reply_plays(reply), ..self }
    }
}

/// Whether a reply says that the player plays.
pub open spec fn reply_plays(reply: Option<Seq<crate::bus::Item>>) -> bool {
    reply matches Some(items) && crate::players::says_playing(items)
}

/// Whether a step is the turn of a player: what came of the call to it, or that
/// its name is no bus name.
pub open spec fn is_turn(player: Seq<char>, step: ScanStep) -> bool {
    if crate::bus::is_bus_name(player) {
        exists|name: &str, call: Result<Message, String>|
            name@ == player && #[trigger] call_ensures(playback_call, (name,), call) && step == (
            match call {
                Ok(message) => ScanStep::Ask(message),
                Err(reason) => ScanStep::Skip(reason),
            })
    } else {
        step matches ScanStep::BadName(name) && name@ == player
    }
}

/// The arguments of the answer to a call, where there was one.
pub open spec fn reply_content(reply: Result<Message, String>) -> Option<Seq<crate::bus::Item>> {
    match reply {
        Ok(message) => Some(crate::bus::message_items(message)),
        Err(_) => None,
    }
}

impl PlaybackScan {
    /// Starts a round over the players that were listed. Where they could not be
    /// listed there is nobody to ask.
    pub fn new(players: Result<Vec<String>, PlayersError>) -> (scan: PlaybackScan)
        ensures
            scan@ == ScanState::fresh(
                match players {
                    Ok(found) => crate::text::texts(found@),
                    Err(_) => Seq::empty(),
                },
            ),
            scan@.wf(),
            scan@.asked == 0,
            !scan@.playing,
            scan@.players == (match players {
                Ok(found) => crate::text::texts(found@),
                Err(_) => Seq::empty(),
            }),
    {
        let players = match players {
            Ok(found) => found,
            Err(_) => Vec::new(),
        };
        proof {
            assert(crate::text::texts(Seq::<String>::empty()) =~= Seq::<Seq<char>>::empty());
        }
        PlaybackScan { players, asked: 0, playing: false }
    }

    /// Takes the next step of the round.
    pub fn next_step(&mut self) -> (step: ScanStep)
        ensures
            old(self)@.wf() ==> final(self)@.wf(),
            step is Done <==> old(self)@.over(),
            step matches ScanStep::Done(playing) ==> playing == old(self)@.playing && final(self)@
                == old(self)@,
            step is Done <==> old(self)@.playing || old(self)@.asked >= old(self)@.players.len(),
            step matches ScanStep::Done(playing) ==> playing == old(self).playing,
            !old(self)@.over() ==> final(self)@.players == old(self)@.players && final(self)@.asked
                == old(self)@.asked + 1 && final(self)@.playing == old(self)@.playing,
            !old(self)@.over() ==> is_turn(old(self)@.players[old(self)@.asked as int], step),
            !old(self)@.over() ==> {
                let player = old(self)@.players[old(self)@.asked as int];
                &&& final(self)@ == old(self)@.advanced()
                &&& step is BadName <==> !crate::bus::is_bus_name(player)
                &&& step matches ScanStep::BadName(name) ==> name@ == player
                &&& step matches ScanStep::Ask(call) ==> crate::players::is_playback_call(
                    call,
                    player,
                )
                &&& step matches ScanStep::Skip(reason) ==> reason@ == crate::bus::NO_MESSAGE@
            },
    {
        if self.playing || self.asked >= self.players.len() {
            return ScanStep::Done(self.playing);
        }
        let turn: usize = self.asked;
        self.asked = turn + 1;
        let player = self.players[turn].clone();
        if !valid_bus_name(player.as_str()) {
            return ScanStep::BadName(player);
        }
        let call = playback_call(player.as_str());
        step_of_call(call)
    }

    /// Takes in the answer to the last call.
    pub fn on_reply(&mut self, reply: Result<Message, String>)
        ensures
            final(self)@ == old(self)@.replied(reply_content(reply)),
            final(self)@.players == old(self)@.players,
            final(self)@.asked == old(self)@.asked,
            final(self)@.playing == (old(self)@.playing || (reply matches Ok(message)
                && crate::players::says_playing(crate::bus::message_items(message)))),
            old(self)@.wf() ==> final(self)@.wf(),
    {
        if let Ok(message) = reply {
            if reply_says_playing(&message) {
                self.playing = true;
            }
        }
    }
}

/// The step for the call to a player, made or not.
pub fn step_of_call(call: Result<Message, String>) -> (step: ScanStep)
    ensures
        step == (match call {
            Ok(message) => ScanStep::Ask(message),
            Err(reason) => ScanStep::Skip(reason),
        }),
{
    match call {
        Ok(message) => ScanStep::Ask(message),
        Err(reason) => ScanStep::Skip(reason),
    }
}

/// A round in progress: `states` starts fresh, and each state follows from the
/// one before by the turn of one player with the reply that stands beside it.
pub open spec fn is_round(
    players: Seq<Seq<char>>,
    states: Seq<ScanState>,
    replies: Seq<Option<Seq<crate::bus::Item>>>,
) -> bool {
    &&& states.len() == replies.len() + 1
    &&& states[0] == ScanState::fresh(players)
    &&& forall|i: int|
        #![trigger states[i], replies[i]]
        0 <= i < replies.len() ==> !states[i].over() && states[i + 1]
            == states[i].advanced().replied(replies[i])
}

proof fn lemma_round_prefix(
    players: Seq<Seq<char>>,
    states: Seq<ScanState>,
    replies: Seq<Option<Seq<crate::bus::Item>>>,
    k: int,
)
    requires
        is_round(players, states, replies),
        0 <= k < states.len(),
    ensures
        states[k].players == players,
        states[k].asked == k,
        states[k].playing <==> k > 0 && reply_plays(replies[k - 1]),
        forall|i: int| 0 <= i < k - 1 ==> !reply_plays(#[trigger] replies[i]),
    decreases k,
{
    if k > 0 {
        lemma_round_prefix(players, states, replies, k - 1);
        assert(!states[k - 1].over());
        let last = replies[k - 1];
        assert(states[k] == states[k - 1].advanced().replied(last));
        assert forall|i: int| 0 <= i < k - 1 implies !reply_plays(#[trigger] replies[i]) by {
            if i == k - 2 {
                assert(!states[k - 1].playing);
            }
        }
    }
}

/// A round gives each player one turn at most, in their order. When it is over
/// its result is whether one of the replies said that its player plays, and a
/// round that found none has left no player out.
pub proof fn law_round_asks_every_player(
    players: Seq<Seq<char>>,
    states: Seq<ScanState>,
    replies: Seq<Option<Seq<crate::bus::Item>>>,
)
    requires
        is_round(players, states, replies),
        states.last().over(),
    ensures
        forall|i: int| 0 <= i < states.len() ==> (#[trigger] states[i]).asked == i,
        states.last().playing <==> exists|i: int|
            0 <= i < replies.len() && reply_plays(#[trigger] replies[i]),
        !states.last().playing ==> replies.len() == players.len(),
{
    assert forall|i: int| 0 <= i < states.len() implies (#[trigger] states[i]).asked == i by {
        lemma_round_prefix(players, states, replies, i);
    }
    let k = replies.len() as int;
    lemma_round_prefix(players, states, replies, k);
    if replies.len() < players.len() && states.last().asked == replies.len() {
        assert(states.last().playing);
    }
    if k > 0 {
        lemma_round_prefix(players, states, replies, k - 1);
        assert(!states[k - 1].over());
    }
}

/// A player is passed over only if the call to it could not be made: a player
/// with a valid bus name to which no call fails is asked, by a call that is for
/// it. One without is reported.
pub proof fn law_callable_players_are_asked(player: Seq<char>, step: ScanStep)
    requires
        is_turn(player, step),
    ensures
        crate::bus::is_bus_name(player) && (forall|name: &str, reason: String|
            name@ == player ==> !#[trigger] call_ensures(
                playback_call,
                (name,),
                Err::<Message, String>(reason),
            )) ==> (step matches ScanStep::Ask(call) && crate::bus::message_header(call).len() == 4
            && crate::bus::message_header(call)[0] == player),
        step matches ScanStep::Skip(reason) ==> exists|name: &str|
            name@ == player && #[trigger] call_ensures(
                playback_call,
                (name,),
                Err::<Message, String>(reason),
            ),
        !crate::bus::is_bus_name(player) ==> (step matches ScanStep::BadName(name) && name@
            == player),
        !(step is Done),
{
    if crate::bus::is_bus_name(player) {
        let (name, call) = choose|name: &str, call: Result<Message, String>|
            name@ == player && #[trigger] call_ensures(playback_call, (name,), call) && step == (
            match call {
                Ok(message) => ScanStep::Ask(message),
                Err(reason) => ScanStep::Skip(reason),
            });
        if step is Skip {
            assert(call == Err::<Message, String>(step->Skip_0));
        }
    }
}

/// A round that ends with nobody playing has asked everybody that can be asked:
/// where the calls to players with a valid bus name can be made, each of them
/// was sent one, and its reply did not say that it plays.
pub proof fn law_silent_round_has_asked_all(
    players: Seq<Seq<char>>,
    states: Seq<ScanState>,
    steps: Seq<ScanStep>,
    replies: Seq<Option<Seq<crate::bus::Item>>>,
    i: int,
)
    requires
        is_round(players, states, replies),
        states.last().over(),
        !states.last().playing,
        steps.len() == replies.len(),
        forall|k: int| 0 <= k < steps.len() ==> is_turn(players[k], #[trigger] steps[k]),
        0 <= i < players.len(),
        crate::bus::is_bus_name(players[i]),
        forall|name: &str, reason: String|
            name@ == players[i] ==> !#[trigger] call_ensures(
                playback_call,
                (name,),
                Err::<Message, String>(reason),
            ),
    ensures
        steps.len() == players.len(),
        steps[i] matches ScanStep::Ask(call) && crate::bus::message_header(call)[0] == players[i],
        !(replies[i] matches Some(items) && items.len() > 0 && items[0]
            == crate::bus::Item::TextVariant("Playing"@)),
{
    law_round_asks_every_player(players, states, replies);
    assert(is_turn(players[i], steps[i]));
    law_callable_players_are_asked(players[i], steps[i]);
    assert(!reply_plays(replies[i]));
}

/// A reply adds to a round that a player plays, if it says so, and changes
/// nothing else; a call without an answer changes nothing at all.
pub proof fn law_replies_only_add(state: ScanState, reply: Option<Seq<crate::bus::Item>>)
    ensures
        state.replied(reply).players == state.players,
        state.replied(reply).asked == state.asked,
        state.playing ==> state.replied(reply).playing,
        !state.playing ==> (state.replied(reply).playing <==> (reply matches Some(items)
            && items.len() > 0 && items[0] == crate::bus::Item::TextVariant("Playing"@))),
        state.replied(None) == state,
{
}

/// A round stands for the names of its players in their order, for how many of
/// them have had their turn, and for whether one plays.
pub proof fn law_what_a_round_stands_for(scan: PlaybackScan, i: int)
    ensures
        scan@.players.len() == scan.players@.len(),
        0 <= i < scan.players@.len() ==> scan@.players[i] == scan.players@[i]@,
        scan@.asked == scan.asked,
        scan@.playing == scan.playing,
        scan@.over() <==> scan.playing || scan.asked >= scan.players@.len(),
{
}

} // verus!
