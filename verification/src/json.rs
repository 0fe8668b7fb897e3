//! The one JSON text the store's path walks need: an array of strings.
use vstd::prelude::*;

verus! {

/// The lower-case hexadecimal digit of `d` (below 16).
pub open spec fn hex_digit(d: int) -> char {
    seq!['0', '1', '2', '3', '4', '5', '6', '7', '8', '9', 'a', 'b', 'c', 'd', 'e', 'f'][d]
}

/// How one character is written inside a JSON string: `"` and `\` and the
/// control characters below 0x20 are escaped (the short forms `\b`, `\t`,
/// `\n`, `\f`, `\r` where there is one, else `\u00` and two hex digits);
/// every other character stands for itself.
pub open spec fn json_char(c: char) -> Seq<char> {
    if c == '"' {
        seq!['\\', '"']
    } else if c == '\\' {
        seq!['\\', '\\']
    } else if c == '\x08' {
        seq!['\\', 'b']
    } else if c == '\t' {
        seq!['\\', 't']
    } else if c == '\n' {
        seq!['\\', 'n']
    } else if c == '\x0c' {
        seq!['\\', 'f']
    } else if c == '\r' {
        seq!['\\', 'r']
    } else if (c as u32) < 0x20 {
        seq!['\\', 'u', '0', '0', hex_digit((c as u32 / 16) as int), hex_digit((c as u32 % 16) as int)]
    } else {
        seq![c]
    }
}

/// The characters of `s`, each written by `json_char`.
pub open spec fn json_escaped(s: Seq<char>) -> Seq<char>
    decreases s.len(),
{
    if s.len() == 0 {
        Seq::empty()
    } else {
        json_escaped(s.drop_last()) + json_char(s.last())
    }
}

/// The text `s` as a JSON string: its escaped characters in double quotes.
pub open spec fn json_string(s: Seq<char>) -> Seq<char> {
    seq!['"'] + json_escaped(s) + seq!['"']
}

/// The JSON strings of `items`, separated by commas.
pub open spec fn json_items(items: Seq<Seq<char>>) -> Seq<char>
    decreases items.len(),
{
    if items.len() == 0 {
        Seq::empty()
    } else if items.len() == 1 {
        json_string(items[0])
    } else {
        json_items(items.drop_last()) + seq![','] + json_string(items.last())
    }
}

/// The JSON text `serde_json::to_string` writes for a list of strings:
/// `[`, the strings separated by commas, `]`, with no spaces.
pub open spec fn json_string_array(items: Seq<Seq<char>>) -> Seq<char> {
    seq!['['] + json_items(items) + seq![']']
}

/// A character JSON writes as itself: no quote, no backslash, no control
/// character below 0x20.
pub open spec fn json_plain(c: char) -> bool {
    c != '"' && c != '\\' && c as u32 >= 0x20
}

/// Text made of plain characters is written unchanged; any other character
/// is written as an escape that starts with a backslash.
pub proof fn lemma_json_escapes_only_specials(s: Seq<char>, c: char)
    ensures
        (forall|i: int| 0 <= i < s.len() ==> #[trigger] json_plain(s[i])) ==> json_escaped(s) == s,
        json_plain(c) ==> json_char(c) == seq![c],
        !json_plain(c) ==> json_char(c).len() >= 2 && json_char(c)[0] == '\\',
    decreases s.len(),
{
    if s.len() > 0 {
        lemma_json_escapes_only_specials(s.drop_last(), c);
        if forall|i: int| 0 <= i < s.len() ==> #[trigger] json_plain(s[i]) {
            assert(json_plain(s.last()));
            assert(forall|i: int|
                0 <= i < s.drop_last().len() ==> #[trigger] json_plain(s.drop_last()[i])) by {
                assert forall|i: int| 0 <= i < s.drop_last().len() implies #[trigger] json_plain(
                    s.drop_last()[i],
                ) by {
                    assert(s.drop_last()[i] == s[i]);
                }
            }
            assert(s.drop_last().push(s.last()) =~= s);
        }
    }
}

/// The error `serde_json` reports.
#[verifier::external_type_specification]
#[verifier::external_body]
pub struct ExJsonError(serde_json::Error);

/// Calls `serde_json::to_string` on the list of the texts of `items`. It
/// writes into a `Vec<u8>`, which never fails, and strings serialize
/// without error, so the call succeeds, with the compact JSON array of
/// the escaped strings.
#[verifier::external_body]
pub(crate) fn to_json_string_array(items: &Vec<Vec<char>>) -> (r: Result<String, serde_json::Error>)
    ensures
        r is Ok,
        r matches Ok(s) ==> s@ == json_string_array(items.deep_view()),
{
    let texts: Vec<String> = items.iter().map(|it| it.iter().collect::<String>()).collect();
    serde_json::to_string(&texts)
}

} // verus!
