//! D-Bus messages: the calls that the library makes and the replies it reads.

use crate::text::holds_char;
use dbus::arg::Variant;
use dbus::strings::BusName;
use dbus::Message;
use vstd::prelude::*;

verus! {

/// What the `dbus` crate says when it could not make a message.
pub const NO_MESSAGE: &'static str = "D-Bus error: dbus_message_new_method_call failed";

/// The number of seconds after which a call is given up.
pub const CALL_TIMEOUT_SECS: u64 = 5;

/// A D-Bus message, as the `dbus` crate holds it: one that came from the bus, or
/// one whose arguments were appended whole. (With `IterAppend` of that crate a
/// container can be left without the content that it announces; such a message
/// cannot be read.)
#[verifier::external_type_specification]
#[verifier::external_body]
pub struct ExMessage(Message);

/// One argument of a message, as far as the library tells arguments apart.
pub enum Item {
    /// A string.
    Text(Seq<char>),
    /// A variant that holds a string.
    TextVariant(Seq<char>),
    /// Anything else.
    Other,
}

/// Whom a method call message is for, in this order: the destination, the
/// object path, the interface and the member.
pub uninterp spec fn message_header(message: Message) -> Seq<Seq<char>>;

/// The arguments that a message holds, first to last.
pub uninterp spec fn message_items(message: Message) -> Seq<Item>;

/// The strings at the start of the array that is the first argument of a
/// message, or `None` where the first argument is no array.
pub uninterp spec fn message_text_list(message: Message) -> Option<Seq<Seq<char>>>;

/// A letter or an underscore.
pub open spec fn is_name_start(c: char) -> bool {
    'A' <= c <= 'Z' || 'a' <= c <= 'z' || c == '_'
}

/// A character that can stand in an element of a name.
pub open spec fn is_name_char(c: char) -> bool {
    is_name_start(c) || '0' <= c <= '9'
}

/// A valid D-Bus object path.
#[verifier::opaque]
pub open spec fn is_object_path(s: Seq<char>) -> bool {
    &&& s.len() > 0
    &&& s[0] == '/'
    &&& s.len() > 1 ==> s.last() != '/'
    &&& forall|i: int| 0 <= i < s.len() ==> s[i] == '/' || is_name_char(#[trigger] s[i])
    &&& forall|i: int| 0 < i < s.len() && #[trigger] s[i] == '/' ==> s[i - 1] != '/'
}

/// A valid D-Bus interface name.
#[verifier::opaque]
pub open spec fn is_interface_name(s: Seq<char>) -> bool {
    &&& 0 < s.len() <= 255
    &&& is_name_start(s[0])
    &&& s.contains('.')
    &&& s.last() != '.'
    &&& forall|i: int| 0 <= i < s.len() ==> s[i] == '.' || is_name_char(#[trigger] s[i])
    &&& forall|i: int| 0 < i < s.len() && s[i - 1] == '.' ==> is_name_start(#[trigger] s[i])
}

/// A valid D-Bus member name.
#[verifier::opaque]
pub open spec fn is_member_name(s: Seq<char>) -> bool {
    &&& 0 < s.len() <= 255
    &&& is_name_start(s[0])
    &&& forall|i: int| 0 <= i < s.len() ==> is_name_char(#[trigger] s[i])
}

/// A valid D-Bus bus name: a unique name, which starts with a colon, or a
/// well-known name.
#[verifier::opaque]
pub open spec fn is_bus_name(s: Seq<char>) -> bool {
    let unique = s[0] == ':';
    let start: int = if unique { 1 } else { 0 };
    &&& 0 < s.len() <= 255
    &&& unique || (s[0] != '.' && s.contains('.'))
    &&& s.last() != '.'
    &&& forall|i: int|
        start <= i < s.len() ==> s[i] == '.' || s[i] == '-' || is_name_char(#[trigger] s[i])
    &&& forall|i: int| 0 < i < s.len() && s[i - 1] == '.' ==> #[trigger] s[i] != '.'
    &&& !unique ==> forall|i: int|
        0 <= i < s.len() && (i == 0 || s[i - 1] == '.') ==> !('0' <= #[trigger] s[i] <= '9')
}

/// `BusName::new` of the `dbus` crate: it accepts a name if and only if the name
/// is a valid bus name. (It would not look behind a NUL, and libdbus keeps the
/// length in an `int`.)
#[verifier::external_body]
fn new_bus_name_accepts(name: &str) -> (accepted: bool)
    requires
        name@.len() <= 255,
        !name@.contains('\0'),
    ensures
        accepted == is_bus_name(name@),
{
    BusName::new(name).is_ok()
}

/// Whether a name is a valid bus name.
pub fn valid_bus_name(name: &str) -> (valid: bool)
    ensures
        valid == is_bus_name(name@),
{
    proof {
        reveal(is_bus_name);
    }
    if name.unicode_len() > 255 {
        return false;
    }
    if holds_char(name, '\0') {
        proof {
            let k = choose|k: int| 0 <= k < name@.len() && name@[k] == '\0';
            assert(name@[k] == '\0');
        }
        return false;
    }
    new_bus_name_accepts(name)
}

/// `Message::new_method_call` of the `dbus` crate, on names that are valid (it
/// panics on others, and on a path whose length no `int` holds). A message that it makes is for the given destination,
/// path, interface and member, and holds no arguments. Where it makes none, it
/// says so in these words. That a message is made is left open: libdbus makes
/// none when memory is short.
#[verifier::external_body]
pub(crate) fn new_method_call(
    destination: &str,
    path: &str,
    interface: &str,
    member: &str,
) -> (call: Result<Message, String>)
    requires
        is_bus_name(destination@),
        is_object_path(path@),
        path@.len() <= 255,
        is_interface_name(interface@),
        is_member_name(member@),
    ensures
        call matches Ok(message) ==> message_header(message) == seq![
            destination@,
            path@,
            interface@,
            member@,
        ],
        call matches Ok(message) ==> message_items(message) == Seq::<Item>::empty(),
        call matches Err(reason) ==> reason@ == NO_MESSAGE@,
{
    Message::new_method_call(destination, path, interface, member)
}

/// Whether a call is what came of an attempt to make one with these names.
pub closed spec fn is_attempt(
    destination: &str,
    path: &str,
    interface: &str,
    member: &str,
    call: Result<Message, String>,
) -> bool {
    call_ensures(new_method_call, (destination, path, interface, member), call)
}

/// Only the `dbus` crate tells what comes of an attempt to make a call.
proof fn lemma_attempts_are_made(
    destination: &str,
    path: &str,
    interface: &str,
    member: &str,
    call: Result<Message, String>,
)
    requires
        is_attempt(destination, path, interface, member, call),
    ensures
        call_ensures(new_method_call, (destination, path, interface, member), call),
{
}

/// Makes a call, or finds that it cannot be made.
pub(crate) fn try_method_call(
    destination: &str,
    path: &str,
    interface: &str,
    member: &str,
) -> (call: Result<Message, String>)
    requires
        is_bus_name(destination@),
        is_object_path(path@),
        path@.len() <= 255,
        is_interface_name(interface@),
        is_member_name(member@),
    ensures
        is_attempt(destination, path, interface, member, call),
        call matches Ok(message) ==> message_header(message) == seq![
            destination@,
            path@,
            interface@,
            member@,
        ] && message_items(message) == Seq::<Item>::empty(),
        call matches Err(reason) ==> reason@ == NO_MESSAGE@,
{
    new_method_call(destination, path, interface, member)
}

/// `Message::append1` of the `dbus` crate with a string: the message keeps its
/// header and its arguments, and gets the string as its last one. A string
/// would be cut at a NUL, and it panics where the arguments grow too long for
/// any message. The types of all arguments have to fit into a signature of 255 characters, of
/// which a string takes one; libdbus loses arguments beyond that.
#[verifier::external_body]
pub(crate) fn append_text(message: Message, text: &str) -> (longer: Message)
    requires
        text@.len() <= 255,
        !text@.contains('\0'),
        message_items(message).len() < 255,
        forall|i: int|
            0 <= i < message_items(message).len() ==> (#[trigger] message_items(message)[i] matches
                Item::Text(held) && held.len() <= 255),
    ensures
        message_header(longer) == message_header(message),
        message_items(longer) == message_items(message).push(Item::Text(text@)),
{
    message.append1(text)
}

/// `Message::get1` of the `dbus` crate, asked for a variant that holds a string:
/// the string, if and only if the first argument is such a variant.
#[verifier::external_body]
pub(crate) fn first_text_variant(message: &Message) -> (text: Option<String>)
    ensures
        match text {
            Some(text) => message_items(*message).len() > 0 && message_items(*message)[0]
                == Item::TextVariant(text@),
            None => !(message_items(*message).len() > 0 && message_items(
                *message,
            )[0] is TextVariant),
        },
{
    message.get1::<Variant<String>>().map(|variant| variant.0)
}

/// `Message::get1` of the `dbus` crate, asked for a list of strings: what the
/// first argument holds of them, or `None` where it is no array.
#[verifier::external_body]
pub(crate) fn first_text_list(message: &Message) -> (list: Option<Vec<String>>)
    ensures
        message_text_list(*message) == (match list {
            Some(names) => Some(crate::text::texts(names@)),
            None => None,
        }),
{
    message.get1()
}

/// A call that was made is for the given names and carries nothing yet, and one
/// that was not made comes with the reason of the `dbus` crate.
pub proof fn law_attempt_is_for_its_names(
    destination: &str,
    path: &str,
    interface: &str,
    member: &str,
    call: Result<Message, String>,
)
    requires
        is_attempt(destination, path, interface, member, call),
    ensures
        call matches Ok(message) ==> {
            &&& message_header(message).len() == 4
            &&& message_header(message)[0] == destination@
            &&& message_header(message)[1] == path@
            &&& message_header(message)[2] == interface@
            &&& message_header(message)[3] == member@
            &&& message_items(message).len() == 0
        },
        call matches Err(reason) ==> reason@
            == "D-Bus error: dbus_message_new_method_call failed"@,
{
    lemma_attempts_are_made(destination, path, interface, member, call);
}

/// A well-known bus name is at most 255 characters long and made of elements of
/// letters, digits, underscores and hyphens that single dots part, two of them
/// at least, of which none starts with a digit.
pub proof fn law_well_known_bus_names(s: Seq<char>)
    requires
        s.len() > 0,
        s[0] != ':',
    ensures
        is_bus_name(s) <==> {
            &&& s.len() <= 255
            &&& exists|i: int| 0 <= i < s.len() && s[i] == '.'
            &&& s[s.len() - 1] != '.'
            &&& forall|i: int|
                0 <= i < s.len() ==> {
                    let c = #[trigger] s[i];
                    let letter = 'a' <= c <= 'z' || 'A' <= c <= 'Z' || c == '_' || c == '-';
                    if i == 0 || s[i - 1] == '.' {
                        letter
                    } else {
                        letter || '0' <= c <= '9' || c == '.'
                    }
                }
        },
{
    reveal(is_bus_name);
    let elements = forall|i: int|
        0 <= i < s.len() ==> {
            let c = #[trigger] s[i];
            let letter = 'a' <= c <= 'z' || 'A' <= c <= 'Z' || c == '_' || c == '-';
            if i == 0 || s[i - 1] == '.' {
                letter
            } else {
                letter || '0' <= c <= '9' || c == '.'
            }
        };
    if is_bus_name(s) {
        let i = choose|i: int| 0 <= i < s.len() && s[i] == '.';
        assert(s[i] == '.');
        assert(elements);
    }
    if elements && exists|i: int| 0 <= i < s.len() && s[i] == '.' {
        assert(s[0] != '.');
        assert(s.contains('.'));
    }
}

/// A unique bus name is a colon, followed by at most 254 letters, digits,
/// underscores, hyphens and dots, where no dot stands at the end or behind
/// another.
pub proof fn law_unique_bus_names(s: Seq<char>)
    requires
        s.len() > 0,
        s[0] == ':',
    ensures
        is_bus_name(s) <==> {
            &&& s.len() <= 255
            &&& s[s.len() - 1] != '.'
            &&& forall|i: int|
                1 <= i < s.len() ==> {
                    let c = #[trigger] s[i];
                    let plain = 'a' <= c <= 'z' || 'A' <= c <= 'Z' || c == '_' || c == '-' || '0'
                        <= c <= '9';
                    plain || (c == '.' && s[i - 1] != '.')
                }
        },
{
    reveal(is_bus_name);
}

/// The empty text is no bus name.
pub proof fn law_no_empty_bus_name()
    ensures
        !is_bus_name(Seq::<char>::empty()),
{
    reveal(is_bus_name);
}

} // verus!
