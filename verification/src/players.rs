//! Media players on the session bus: which there are, and whether one plays.

use crate::bus::{append_text, first_text_list, first_text_variant, try_method_call};
use crate::text::{has_prefix, same_text};
use dbus::Message;
use vstd::prelude::*;

verus! {

/// The start of the bus name of every media player.
pub const PLAYER_PREFIX: &'static str = "org.mpris.MediaPlayer2.";

/// Why the media players could not be listed.
#[derive(Debug)]
pub enum PlayersError {
    /// The call could not be made.
    Call(String),
    /// The bus did not answer, or answered with an error.
    Reply(String),
    /// The answer held no list of names.
    NoNames,
}

impl PlayersError {
    /// The text that tells the user what went wrong.
    pub fn message(&self) -> (text: String)
        ensures
            text@ == (match self {
                PlayersError::Call(reason) => reason@,
                PlayersError::Reply(reason) => reason@,
                PlayersError::NoNames => "Failed to get names from response"@,
            }),
    {
        match self {
            PlayersError::Call(reason) => reason.clone(),
            PlayersError::Reply(reason) => reason.clone(),
            PlayersError::NoNames => "Failed to get names from response".to_string(),
        }
    }
}

/// Whether a bus name is that of a media player.
pub open spec fn is_player_name(name: Seq<char>) -> bool {
    PLAYER_PREFIX@.is_prefix_of(name)
}

/// The media players among the names on a bus, in the order of the names.
pub open spec fn player_names(names: Seq<Seq<char>>) -> Seq<Seq<char>> {
    names.filter(|name: Seq<char>| is_player_name(name))
}

/// The call that asks the bus for the names of all its services.
pub open spec fn is_list_names_call(message: Message) -> bool {
    &&& crate::bus::message_header(message) == seq![
        "org.freedesktop.DBus"@,
        "/org/freedesktop/DBus"@,
        "org.freedesktop.DBus"@,
        "ListNames"@,
    ]
    &&& crate::bus::message_items(message) == Seq::<crate::bus::Item>::empty()
}

/// The call that asks a media player for its playback status.
pub open spec fn is_playback_call(message: Message, player: Seq<char>) -> bool {
    &&& crate::bus::message_header(message) == seq![
        player,
        "/org/mpris/MediaPlayer2"@,
        "org.freedesktop.DBus.Properties"@,
        "Get"@,
    ]
    &&& crate::bus::message_items(message) == seq![
        crate::bus::Item::Text("org.mpris.MediaPlayer2.Player"@),
        crate::bus::Item::Text("PlaybackStatus"@),
    ]
}

/// Whether the arguments of a reply say that the player plays: the first is a
/// variant that holds the string `Playing`.
pub open spec fn says_playing(items: Seq<crate::bus::Item>) -> bool {
    items.len() > 0 && items[0] == crate::bus::Item::TextVariant("Playing"@)
}

/// Makes the call that asks the bus for the names of all its services.
pub fn list_names_call() -> (call: Result<Message, PlayersError>)
    ensures
        exists|made: Result<Message, String>| #[trigger]
            crate::bus::is_attempt(
                "org.freedesktop.DBus",
                "/org/freedesktop/DBus",
                "org.freedesktop.DBus",
                "ListNames",
                made,
            ) && call == (match made {
                Ok(message) => Ok::<Message, PlayersError>(message),
                Err(reason) => Err::<Message, PlayersError>(PlayersError::Call(reason)),
            }),
        call matches Ok(message) ==> is_list_names_call(message),
        call matches Err(error) ==> (error matches PlayersError::Call(reason) && reason@
            == crate::bus::NO_MESSAGE@),
{
    proof {
        lemma_fixed_names();
    }
    let made = try_method_call(
        "org.freedesktop.DBus",
        "/org/freedesktop/DBus",
        "org.freedesktop.DBus",
        "ListNames",
    );
    match made {
        Ok(message) => Ok(message),
        Err(reason) => Err(PlayersError::Call(reason)),
    }
}

/// Makes the call that asks a media player for its playback status.
pub fn playback_call(player: &str) -> (call: Result<Message, String>)
    requires
        crate::bus::is_bus_name(player@),
    ensures
        exists|made: Result<Message, String>|
            crate::bus::is_attempt(
                player,
                "/org/mpris/MediaPlayer2",
                "org.freedesktop.DBus.Properties",
                "Get",
                made,
            ) && #[trigger] call_ensures(with_playback_arguments, (made,), call),
        call matches Ok(message) ==> is_playback_call(message, player@),
        call matches Err(reason) ==> reason@ == crate::bus::NO_MESSAGE@,
{
    proof {
        lemma_fixed_names();
    }
    let made = try_method_call(
        player,
        "/org/mpris/MediaPlayer2",
        "org.freedesktop.DBus.Properties",
        "Get",
    );
    with_playback_arguments(made)
}

/// Adds the arguments of the call for the playback status to a call, where it
/// could be made.
pub fn with_playback_arguments(call: Result<Message, String>) -> (full: Result<Message, String>)
    requires
        call matches Ok(message) ==> crate::bus::message_items(message) == Seq::<
            crate::bus::Item,
        >::empty(),
    ensures
        match call {
            Ok(message) => full matches Ok(longer) && crate::bus::message_header(longer)
                == crate::bus::message_header(message) && crate::bus::message_items(longer) == seq![
                crate::bus::Item::Text("org.mpris.MediaPlayer2.Player"@),
                crate::bus::Item::Text("PlaybackStatus"@),
            ],
            Err(reason) => full == Err::<Message, String>(reason),
        },
{
    proof {
        lemma_fixed_names();
    }
    match call {
        Ok(message) => {
            let with_interface = append_text(message, "org.mpris.MediaPlayer2.Player");
            let with_property = append_text(with_interface, "PlaybackStatus");
            proof {
                assert(crate::bus::message_items(with_property) =~= seq![
                    crate::bus::Item::Text("org.mpris.MediaPlayer2.Player"@),
                    crate::bus::Item::Text("PlaybackStatus"@),
                ]);
            }
            Ok(with_property)
        },
        Err(reason) => Err(reason),
    }
}

/// Picks the media players out of the names on a bus.
pub fn media_players(names: &Vec<String>) -> (players: Vec<String>)
    ensures
        crate::text::texts(players@) == player_names(crate::text::texts(names@)),
{
    let mut players: Vec<String> = Vec::new();
    let ghost all = crate::text::texts(names@);
    let mut i: usize = 0;
    proof {
        reveal(Seq::filter);
        assert(crate::text::texts(players@) =~= player_names(all.take(0)));
    }
    while i < names.len()
        invariant
            i <= names.len(),
            all == crate::text::texts(names@),
            crate::text::texts(players@) == player_names(all.take(i as int)),
        decreases names.len() - i,
    {
        let ghost before = players@;
        if has_prefix(names[i].as_str(), PLAYER_PREFIX) {
            players.push(names[i].clone());
        }
        proof {
            reveal(Seq::filter);
            assert(all.take(i + 1).drop_last() =~= all.take(i as int));
            assert(all.take(i + 1).last() == names@[i as int]@);
            if is_player_name(names@[i as int]@) {
                assert(crate::text::texts(players@) =~= crate::text::texts(before).push(
                    names@[i as int]@,
                ));
            }
        }
        i = i + 1;
    }
    proof {
        assert(all.take(i as int) =~= all);
    }
    players
}

/// Reads the answer to the call for all names on the bus.
pub fn list_media_players(response: Result<Message, String>) -> (players: Result<
    Vec<String>,
    PlayersError,
>)
    ensures
        match response {
            Err(reason) => players == Err::<Vec<String>, PlayersError>(PlayersError::Reply(reason)),
            Ok(message) => match crate::bus::message_text_list(message) {
                None => players == Err::<Vec<String>, PlayersError>(PlayersError::NoNames),
                Some(names) => players matches Ok(found) && crate::text::texts(found@)
                    == player_names(names),
            },
        },
{
    match response {
        Err(reason) => Err(PlayersError::Reply(reason)),
        Ok(message) => players_of_names(first_text_list(&message)),
    }
}

/// The media players of the list of names that an answer held.
pub fn players_of_names(names: Option<Vec<String>>) -> (players: Result<Vec<String>, PlayersError>)
    ensures
        match names {
            None => players == Err::<Vec<String>, PlayersError>(PlayersError::NoNames),
            Some(all) => players matches Ok(found) && crate::text::texts(found@) == player_names(
                crate::text::texts(all@),
            ),
        },
{
    match names {
        None => Err(PlayersError::NoNames),
        Some(all) => Ok(media_players(&all)),
    }
}

/// Whether a playback status says that the player plays; `None` stands for a
/// reply that holds no status.
pub fn status_says_playing(status: Option<String>) -> (playing: bool)
    ensures
        playing == (status matches Some(status) && status@ == "Playing"@),
{
    match status {
        Some(status) => same_text(status.as_str(), "Playing"),
        None => false,
    }
}

/// Whether a reply to the call for the playback status says that the player
/// plays.
pub fn reply_says_playing(reply: &Message) -> (playing: bool)
    ensures
        playing == says_playing(crate::bus::message_items(*reply)),
{
    status_says_playing(first_text_variant(reply))
}

proof fn lemma_fixed_names()
    ensures
        crate::bus::is_bus_name("org.freedesktop.DBus"@),
        crate::bus::is_object_path("/org/freedesktop/DBus"@),
        "/org/freedesktop/DBus"@.len() <= 255,
        crate::bus::is_interface_name("org.freedesktop.DBus"@),
        crate::bus::is_member_name("ListNames"@),
        crate::bus::is_object_path("/org/mpris/MediaPlayer2"@),
        "/org/mpris/MediaPlayer2"@.len() <= 255,
        crate::bus::is_interface_name("org.freedesktop.DBus.Properties"@),
        crate::bus::is_member_name("Get"@),
        "org.mpris.MediaPlayer2.Player"@.len() <= 255,
        !"org.mpris.MediaPlayer2.Player"@.contains('\0'),
        "PlaybackStatus"@.len() <= 255,
        !"PlaybackStatus"@.contains('\0'),
{
    reveal(crate::bus::is_bus_name);
    reveal(crate::bus::is_object_path);
    reveal(crate::bus::is_interface_name);
    reveal(crate::bus::is_member_name);
    reveal_strlit("org.freedesktop.DBus");
    reveal_strlit("/org/freedesktop/DBus");
    reveal_strlit("ListNames");
    reveal_strlit("/org/mpris/MediaPlayer2");
    reveal_strlit("org.freedesktop.DBus.Properties");
    reveal_strlit("Get");
    reveal_strlit("org.mpris.MediaPlayer2.Player");
    reveal_strlit("PlaybackStatus");
    assert("org.freedesktop.DBus"@[3] == '.');
    assert("org.freedesktop.DBus.Properties"@[3] == '.');
}

/// The list of media players holds every name of a media player, and nothing
/// else, and a media player stays one: to filter again changes nothing.
pub proof fn law_players_are_the_player_names(names: Seq<Seq<char>>)
    ensures
        forall|name: Seq<char>| #[trigger]
            player_names(names).contains(name) <==> names.contains(name) && is_player_name(name),
        player_names(player_names(names)) == player_names(names),
    decreases names.len(),
{
    reveal(Seq::filter);
    if names.len() > 0 {
        let rest = names.drop_last();
        law_players_are_the_player_names(rest);
        let found = player_names(rest);
        assert(names =~= rest.push(names.last()));
        assert forall|name: Seq<char>| #[trigger]
            player_names(names).contains(name) <==> names.contains(name) && is_player_name(
                name,
            ) by {
            assert(names.contains(name) <==> rest.contains(name) || name == names.last()) by {
                if rest.contains(name) {
                    let i = choose|i: int| 0 <= i < rest.len() && rest[i] == name;
                    assert(names[i] == name);
                }
                assert(names[names.len() - 1] == names.last());
            }
            assert(player_names(rest).contains(name) <==> rest.contains(name) && is_player_name(
                name,
            ));
            if is_player_name(names.last()) {
                let all = found.push(names.last());
                assert(all.contains(name) <==> found.contains(name) || name == names.last()) by {
                    if found.contains(name) {
                        let i = choose|i: int| 0 <= i < found.len() && found[i] == name;
                        assert(all[i] == name);
                    }
                    assert(all[all.len() - 1] == names.last());
                }
            }
        }
        if is_player_name(names.last()) {
            assert(found.push(names.last()).drop_last() =~= found);
        }
    }
}

/// The media players stand in the order of the names on the bus: those of a
/// longer list begin with those of its start.
pub proof fn law_players_keep_their_order(names: Seq<Seq<char>>, more: Seq<Seq<char>>)
    ensures
        player_names(names + more) == player_names(names) + player_names(more),
{
    Seq::filter_distributes_over_add(names, more, |name: Seq<char>| is_player_name(name));
}

/// A media player is a service whose name is the prefix of all of them,
/// followed by anything.
pub proof fn law_player_names_have_the_prefix(name: Seq<char>, rest: Seq<char>)
    ensures
        is_player_name("org.mpris.MediaPlayer2."@ + rest),
        is_player_name(name) <==> exists|end: Seq<char>|
            name == #[trigger] ("org.mpris.MediaPlayer2."@ + end),
{
    let prefix = "org.mpris.MediaPlayer2."@;
    assert(prefix =~= (prefix + rest).subrange(0, prefix.len() as int));
    if is_player_name(name) {
        let end = name.skip(prefix.len() as int);
        assert(name =~= prefix + end);
    }
    if exists|end: Seq<char>| name == #[trigger] (prefix + end) {
        let end = choose|end: Seq<char>| name == #[trigger] (prefix + end);
        assert(prefix =~= (prefix + end).subrange(0, prefix.len() as int));
    }
}

/// Of a single name the list of media players holds that name if it has the
/// prefix of a media player, and nothing if it has not.
pub proof fn law_players_of_one_name(name: Seq<char>)
    ensures
        player_names(seq![name]) == (if "org.mpris.MediaPlayer2."@.is_prefix_of(name) {
            seq![name]
        } else {
            Seq::empty()
        }),
        player_names(Seq::empty()) == Seq::<Seq<char>>::empty(),
{
    reveal(Seq::filter);
    assert(seq![name].drop_last() =~= Seq::empty());
    assert(Seq::<Seq<char>>::empty().push(name) =~= seq![name]);
    assert(player_names(Seq::empty()) =~= Seq::<Seq<char>>::empty());
}

/// A reply says that the player plays if and only if its first argument is a
/// variant that holds `Playing`; what follows does not count.
pub proof fn law_what_says_playing(items: Seq<crate::bus::Item>, more: Seq<crate::bus::Item>)
    ensures
        !says_playing(Seq::empty()),
        says_playing(seq![crate::bus::Item::TextVariant("Playing"@)] + more),
        items.len() > 0 ==> (says_playing(items) <==> (items[0]
            matches crate::bus::Item::TextVariant(status) && status == "Playing"@)),
        items.len() > 0 ==> says_playing(items + more) == says_playing(items),
{
}

/// The call to a media player goes to that player, and asks for the playback
/// status by name.
pub proof fn law_playback_call_asks_the_player(message: Message, player: Seq<char>)
    ensures
        is_playback_call(message, player) <==> {
            let header = crate::bus::message_header(message);
            let items = crate::bus::message_items(message);
            &&& header.len() == 4
            &&& header[0] == player
            &&& header[1] == "/org/mpris/MediaPlayer2"@
            &&& header[2] == "org.freedesktop.DBus.Properties"@
            &&& header[3] == "Get"@
            &&& items.len() == 2
            &&& items[0] == crate::bus::Item::Text("org.mpris.MediaPlayer2.Player"@)
            &&& items[1] == crate::bus::Item::Text("PlaybackStatus"@)
        },
{
    let header = crate::bus::message_header(message);
    let items = crate::bus::message_items(message);
    if header.len() == 4 && header[0] == player && header[1] == "/org/mpris/MediaPlayer2"@
        && header[2] == "org.freedesktop.DBus.Properties"@ && header[3] == "Get"@ {
        assert(header =~= seq![
            player,
            "/org/mpris/MediaPlayer2"@,
            "org.freedesktop.DBus.Properties"@,
            "Get"@,
        ]);
    }
    if items.len() == 2 && items[0] == crate::bus::Item::Text("org.mpris.MediaPlayer2.Player"@)
        && items[1] == crate::bus::Item::Text("PlaybackStatus"@) {
        assert(items =~= seq![
            crate::bus::Item::Text("org.mpris.MediaPlayer2.Player"@),
            crate::bus::Item::Text("PlaybackStatus"@),
        ]);
    }
}

/// The call for all names goes to the bus itself, and carries nothing.
pub proof fn law_list_names_call_asks_the_bus(message: Message)
    requires
        is_list_names_call(message),
    ensures
        crate::bus::message_header(message).len() == 4,
        crate::bus::message_header(message)[0] == "org.freedesktop.DBus"@,
        crate::bus::message_header(message)[1] == "/org/freedesktop/DBus"@,
        crate::bus::message_header(message)[2] == "org.freedesktop.DBus"@,
        crate::bus::message_header(message)[3] == "ListNames"@,
        crate::bus::message_items(message).len() == 0,
{
}

/// The call to a player comes to nothing only if the `dbus` crate could not make
/// it.
pub proof fn law_playback_call_fails_only_with_its_attempt(
    player: &str,
    call: Result<Message, String>,
)
    requires
        call_ensures(playback_call, (player,), call),
        forall|made: Result<Message, String>| #[trigger]
            crate::bus::is_attempt(
                player,
                "/org/mpris/MediaPlayer2",
                "org.freedesktop.DBus.Properties",
                "Get",
                made,
            ) ==> made is Ok,
    ensures
        call matches Ok(message) && is_playback_call(message, player@),
{
}

} // verus!
