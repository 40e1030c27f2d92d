//! JSON text.

use vstd::prelude::*;

verus! {

/// The hexadecimal digit of a number below sixteen.
pub open spec fn hex_digit(d: int) -> char {
    if d < 10 {
        (('0' as int) + d) as char
    } else {
        (('a' as int) + d - 10) as char
    }
}

/// How a character is written in a JSON string.
pub open spec fn json_char(c: char) -> Seq<char> {
    if c == '"' || c == '\\' {
        seq!['\\', c]
    } else if c == '\u{8}' {
        seq!['\\', 'b']
    } else if c == '\t' {
        seq!['\\', 't']
    } else if c == '\n' {
        seq!['\\', 'n']
    } else if c == '\u{c}' {
        seq!['\\', 'f']
    } else if c == '\r' {
        seq!['\\', 'r']
    } else if (c as int) < 32 {
        seq!['\\', 'u', '0', '0', hex_digit(c as int / 16), hex_digit(c as int % 16)]
    } else {
        seq![c]
    }
}

/// How a text is written inside the quotes of a JSON string.
pub open spec fn json_chars(s: Seq<char>) -> Seq<char>
    decreases s.len(),
{
    if s.len() == 0 {
        Seq::empty()
    } else {
        json_char(s.first()) + json_chars(s.drop_first())
    }
}

/// A text as a JSON string.
pub open spec fn json_string(s: Seq<char>) -> Seq<char> {
    seq!['"'] + json_chars(s) + seq!['"']
}

/// The JSON object with one key, whose value is a string.
pub open spec fn json_entry(key: Seq<char>, value: Seq<char>) -> Seq<char> {
    seq!['{'] + json_string(key) + seq![':'] + json_string(value) + seq!['}']
}

/// The `Display` text of a `Value` of the `serde_json` crate that is an object
/// with one key and a string value: compact, with the characters of key and
/// value escaped where JSON asks for it and nowhere else.
#[verifier::external_body]
pub(crate) fn entry_text(key: &str, value: &str) -> (text: String)
    ensures
        text@ == json_entry(key@, value@),
{
    let mut entries = serde_json::Map::new();
    entries.insert(key.to_string(), serde_json::Value::from(value));
    serde_json::Value::Object(entries).to_string()
}

proof fn lemma_first_char(a: char, rest_a: Seq<char>, b: char, rest_b: Seq<char>)
    requires
        json_char(a) + rest_a == json_char(b) + rest_b,
    ensures
        a == b,
        rest_a == rest_b,
{
    let text = json_char(a) + rest_a;
    let other = json_char(b) + rest_b;
    assert(text[0] == json_char(a)[0] && other[0] == json_char(b)[0]);
    if json_char(a).len() > 1 && json_char(b).len() > 1 {
        assert(text[1] == json_char(a)[1] && other[1] == json_char(b)[1]);
        if json_char(a).len() == 6 && json_char(b).len() == 6 {
            assert(text[4] == json_char(a)[4] && other[4] == json_char(b)[4]);
            assert(text[5] == json_char(a)[5] && other[5] == json_char(b)[5]);
        }
    }
    assert(a == b);
    let n = json_char(a).len() as int;
    assert(rest_a =~= text.skip(n));
    assert(rest_b =~= other.skip(n));
}

proof fn lemma_json_chars_injective(s: Seq<char>, t: Seq<char>)
    requires
        json_chars(s) == json_chars(t),
    ensures
        s == t,
    decreases s.len(),
{
    if s.len() > 0 && t.len() > 0 {
        lemma_first_char(
            s.first(),
            json_chars(s.drop_first()),
            t.first(),
            json_chars(t.drop_first()),
        );
        lemma_json_chars_injective(s.drop_first(), t.drop_first());
        assert(s =~= seq![s.first()] + s.drop_first());
        assert(t =~= seq![t.first()] + t.drop_first());
    } else if s.len() > 0 {
        assert(json_chars(s).len() > 0);
    } else if t.len() > 0 {
        assert(json_chars(t).len() > 0);
    } else {
        assert(s =~= t);
    }
}

/// The text of an entry gives its value back: under one key, no two values are
/// written alike.
pub proof fn law_entry_determines_value(key: Seq<char>, value: Seq<char>, other: Seq<char>)
    requires
        json_entry(key, value) == json_entry(key, other),
    ensures
        value == other,
{
    let text = json_entry(key, value);
    let from = json_string(key).len() as int + 3;
    assert(json_chars(value) =~= text.subrange(from, text.len() - 2));
    assert(json_chars(other) =~= json_entry(key, other).subrange(from, text.len() - 2));
    lemma_json_chars_injective(value, other);
}

/// A text of characters that JSON need not escape stands in its entry as it is,
/// between quotes.
pub proof fn law_plain_text_is_written_as_it_is(key: Seq<char>, value: Seq<char>)
    requires
        forall|i: int|
            0 <= i < key.len() ==> #[trigger] key[i] != '"' && key[i] != '\\' && key[i] as int >= 32,
        forall|i: int|
            0 <= i < value.len() ==> #[trigger] value[i] != '"' && value[i] != '\\' && value[i] as int
                >= 32,
    ensures
        json_entry(key, value) == seq!['{', '"'] + key + seq!['"', ':', '"'] + value + seq!['"', '}'],
{
    lemma_plain_chars(key);
    lemma_plain_chars(value);
    assert(json_entry(key, value) =~= seq!['{', '"'] + key + seq!['"', ':', '"'] + value + seq![
        '"',
        '}',
    ]);
}

proof fn lemma_plain_chars(s: Seq<char>)
    requires
        forall|i: int|
            0 <= i < s.len() ==> #[trigger] s[i] != '"' && s[i] != '\\' && s[i] as int >= 32,
    ensures
        json_chars(s) == s,
    decreases s.len(),
{
    if s.len() > 0 {
        let rest = s.drop_first();
        assert(forall|i: int| 0 <= i < rest.len() ==> #[trigger] rest[i] == s[i + 1]);
        lemma_plain_chars(rest);
        assert(json_char(s.first()) =~= seq![s.first()]);
        assert(json_chars(s) =~= s);
    } else {
        assert(json_chars(s) =~= s);
    }
}

/// The number that a hexadecimal digit stands for.
pub open spec fn hex_value(c: char) -> int {
    if '0' <= c <= '9' {
        c as int - '0' as int
    } else {
        c as int - 'a' as int + 10
    }
}

/// A character is written as it is, unless it is a quote, a backslash or a
/// control character. Those are written behind a backslash: as the letter that
/// JSON has for it, where it has one, else as its code in hexadecimal digits.
pub proof fn law_how_a_character_is_written(c: char)
    ensures
        c != '"' && c != '\\' && c as int >= 32 ==> json_char(c) == seq![c],
        c == '"' || c == '\\' || (c as int) < 32 ==> json_char(c).len() > 1 && json_char(c)[0]
            == '\\',
        json_char(c).len() == 2 ==> {
            let letter = json_char(c)[1];
            ||| letter == c && (c == '"' || c == '\\')
            ||| letter == 'b' && c as int == 8
            ||| letter == 't' && c as int == 9
            ||| letter == 'n' && c as int == 10
            ||| letter == 'f' && c as int == 12
            ||| letter == 'r' && c as int == 13
        },
        json_char(c).len() > 2 ==> {
            let code = json_char(c);
            &&& code.len() == 6
            &&& code[1] == 'u' && code[2] == '0' && code[3] == '0'
            &&& hex_value(code[4]) * 16 + hex_value(code[5]) == c as int
            &&& !(8 <= c as int <= 10) && c as int != 12 && c as int != 13
        },
{
}

} // verus!
