//! The grammar of address paths, the texts by which notes, facets, shard
//! entries and filesystem nodes are named:
//! - raw paths `$(<36 characters of id>)`,
//! - shard paths `<shard.path:name>`,
//! - filesystem paths `[dir/file]`,
//! - in-note paths: a shard or filesystem path followed by `(row;column)`.
//!
//! Every test works on the UTF-8 bytes of the text (`spec_bytes`), as the
//! slicing it performs is by byte offset; where a slice would cut a
//! character or run backwards the function is not defined (`requires`).
use vstd::prelude::*;
use vstd::string::*;
use vstd::utf8::*;

use crate::fs::address::AddressError;
use crate::json::{json_string_array, to_json_string_array};
use crate::text::{
    ascii_alnum, ascii_digit, chars_of, copy_range, ends_with_byte, find_byte, find_byte_between,
    find_char_from, first_index, i64_text_value, is_alphanumeric, is_ascii_alnum, is_ascii_digit,
    is_numeric, lemma_ascii_byte_boundaries, lemma_first_index, parse_i64, remove_spaces,
    split_at_char, split_chars, starts_with_byte, substr, substring_chars, unicode_alphanumeric,
    unicode_numeric, without_spaces,
};

verus! {

broadcast use vstd::utf8::encode_utf8_valid_utf8, vstd::utf8::encode_utf8_decode_utf8,
    vstd::utf8::is_char_boundary_start_end_of_seq;

/// A path that names an address, kept as the text it was parsed from.
#[derive(Debug)]
pub enum AddressPath {
    RawPath(String),
    ShardPath(String),
    FsPath(String),
    InNotePath(String),
}

/// A character allowed in the id of a raw path.
pub open spec fn is_raw_id_char(c: char) -> bool {
    is_ascii_alnum(c) || c == '-'
}

/// The key a raw path resolves by: what stands between `$(` and the last byte.
pub open spec fn raw_path_key(b: Seq<u8>) -> Seq<char> {
    chars_of(b, 2, b.len() - 1)
}

/// A character allowed inside the brackets of a shard path.
pub open spec fn is_shard_char(c: char) -> bool {
    unicode_alphanumeric(c) || c == '.' || c == ':'
}

/// `$(` + 36 id characters + `)`, 39 bytes in all.
pub open spec fn is_raw_path_bytes(b: Seq<u8>) -> bool {
    &&& b.len() == 39
    &&& b[0] == 0x24u8
    &&& b[1] == 0x28u8
    &&& b[38] == 0x29u8
    &&& forall|i: int|
        0 <= i < chars_of(b, 2, 38).len() ==> #[trigger] is_raw_id_char(chars_of(b, 2, 38)[i])
}

/// The text starts with `<` or ends with `>`.
pub open spec fn is_shard_marked(b: Seq<u8>) -> bool {
    starts_with_byte(b, 0x3cu8) || ends_with_byte(b, 0x3eu8)
}

/// The shard test cuts off the first and the last byte of a marked text;
/// this is defined only when both cuts fall between characters.
pub open spec fn shard_path_well_sliced(b: Seq<u8>) -> bool {
    is_shard_marked(b) ==> {
        &&& b.len() >= 2
        &&& is_char_boundary(b, 1)
        &&& is_char_boundary(b, b.len() - 1)
    }
}

/// A marked text whose characters between the first and the last byte are
/// alphanumeric, `.` or `:`.
pub open spec fn is_shard_path_bytes(b: Seq<u8>) -> bool {
    &&& is_shard_marked(b)
    &&& forall|i: int|
        0 <= i < chars_of(b, 1, b.len() - 1).len() ==> #[trigger] is_shard_char(
            chars_of(b, 1, b.len() - 1)[i],
        )
}

/// Starts with `[` and ends with `]`.
pub open spec fn is_fs_path_bytes(b: Seq<u8>) -> bool {
    starts_with_byte(b, 0x5bu8) && ends_with_byte(b, 0x5du8)
}

/// The closing bracket for an opening one: `>` for `<`, otherwise `]`.
pub open spec fn closer_of(opener: u8) -> u8 {
    if opener == 0x3cu8 {
        0x3eu8
    } else {
        0x5du8
    }
}

/// Where the first closing bracket of an in-note path stands (-1: nowhere).
pub open spec fn in_note_close(b: Seq<u8>) -> int {
    first_index(b, closer_of(b[0]))
}

/// The frame of an in-note path: it opens with `<` or `[`, does not end
/// with `)`, and its first closing bracket is followed by `(`.
pub open spec fn is_in_note_framed(b: Seq<u8>) -> bool {
    &&& (starts_with_byte(b, 0x3cu8) || starts_with_byte(b, 0x5bu8))
    &&& !ends_with_byte(b, 0x29u8)
    &&& in_note_close(b) >= 0
    &&& in_note_close(b) + 1 < b.len()
    &&& b[in_note_close(b) + 1] == 0x28u8
}

/// The part before the closing bracket passes the shard test (for `<`) or
/// the filesystem test (for `[`).
pub open spec fn in_note_address_ok(b: Seq<u8>) -> bool {
    if b[0] == 0x3cu8 {
        is_shard_path_bytes(b.subrange(0, in_note_close(b)))
    } else {
        is_fs_path_bytes(b.subrange(0, in_note_close(b)))
    }
}

/// The position text: the characters after `(` up to, not including, the
/// last byte, with the spaces taken out.
pub open spec fn in_note_position(b: Seq<u8>) -> Seq<char> {
    without_spaces(chars_of(b, in_note_close(b) + 2, b.len() - 1))
}

/// One or more ASCII digits.
pub open spec fn is_digits(s: Seq<char>) -> bool {
    s.len() > 0 && forall|i: int| 0 <= i < s.len() ==> #[trigger] is_ascii_digit(s[i])
}

/// `row;column` where the row is digits and the column is `~` or digits.
pub open spec fn is_position(pos: Seq<char>) -> bool {
    let j = first_index(pos, ';');
    &&& j >= 0
    &&& is_digits(pos.subrange(0, j))
    &&& (pos.subrange(j + 1, pos.len() as int) == seq!['~'] || is_digits(
        pos.subrange(j + 1, pos.len() as int),
    ))
}

/// A framed text whose address part passes and whose position text is a position.
pub open spec fn is_in_note_path_bytes(b: Seq<u8>) -> bool {
    &&& is_in_note_framed(b)
    &&& in_note_address_ok(b)
    &&& is_position(in_note_position(b))
}

/// The in-note test is defined: the shard test on the address part is, and
/// the position slice runs forward and ends between characters.
pub open spec fn in_note_path_well_sliced(b: Seq<u8>) -> bool {
    is_in_note_framed(b) ==> {
        &&& (b[0] == 0x3cu8 ==> shard_path_well_sliced(b.subrange(0, in_note_close(b))))
        &&& (in_note_address_ok(b) ==> {
            &&& in_note_close(b) + 2 <= b.len() - 1
            &&& is_char_boundary(b, b.len() - 1)
        })
    }
}

/// `parse` is defined on the text.
pub open spec fn parse_well_sliced(b: Seq<u8>) -> bool {
    &&& starts_with_byte(b, 0x3cu8) ==> shard_path_well_sliced(b)
    &&& (starts_with_byte(b, 0x5bu8) && !is_fs_path_bytes(b)) ==> in_note_path_well_sliced(b)
}

/// What `parse` gives for a text.
pub open spec fn parse_spec(path: String) -> Option<AddressPath> {
    let b = encode_utf8(path@);
    if starts_with_byte(b, 0x24u8) && is_raw_path_bytes(b) {
        Some(AddressPath::RawPath(path))
    } else if starts_with_byte(b, 0x3cu8) && is_fs_path_bytes(b) {
        Some(AddressPath::FsPath(path))
    } else if starts_with_byte(b, 0x3cu8) && is_shard_path_bytes(b) {
        Some(AddressPath::ShardPath(path))
    } else if starts_with_byte(b, 0x5bu8) && is_fs_path_bytes(b) {
        Some(AddressPath::FsPath(path))
    } else if starts_with_byte(b, 0x5bu8) && is_in_note_path_bytes(b) {
        Some(AddressPath::InNotePath(path))
    } else {
        None
    }
}

/// `$` + 36 characters that are ASCII letters, digits or `-`, 37 bytes in all.
pub open spec fn is_bare_raw_path_bytes(b: Seq<u8>) -> bool {
    &&& b.len() == 37
    &&& b[0] == 0x24u8
    &&& forall|i: int|
        0 <= i < chars_of(b, 1, 37).len() ==> #[trigger] is_raw_id_char(chars_of(b, 1, 37)[i])
}

/// A character allowed before the `>` of a `$`-opened shard text.
pub open spec fn is_dollar_shard_char(c: char) -> bool {
    unicode_alphanumeric(c) || c == '.'
}

/// Opens with `$`; the text before its first `>` is alphanumeric or `.`,
/// the rest starts with `(`, and the whole ends with `)`.
pub open spec fn is_dollar_shard_path_bytes(b: Seq<u8>) -> bool {
    let k = first_index(b, 0x3eu8);
    &&& starts_with_byte(b, 0x24u8)
    &&& k >= 0
    &&& forall|i: int|
        0 <= i < chars_of(b, 0, k).len() ==> #[trigger] is_dollar_shard_char(chars_of(b, 0, k)[i])
    &&& starts_with_byte(b.subrange(k + 1, b.len() as int), 0x28u8)
    &&& ends_with_byte(b, 0x29u8)
}

/// Where the first `]` stands (-1: nowhere).
pub open spec fn fs_close(b: Seq<u8>) -> int {
    first_index(b, 0x5du8)
}

/// Opens with `[`, ends with `)`, has a `]`, and the character whose index
/// (counted in characters) is one more than the byte offset of that `]` is `(`.
pub open spec fn is_in_fs_framed(b: Seq<u8>) -> bool {
    &&& starts_with_byte(b, 0x5bu8)
    &&& ends_with_byte(b, 0x29u8)
    &&& fs_close(b) >= 0
    &&& decode_utf8(b).len() > fs_close(b) + 1
    &&& decode_utf8(b)[fs_close(b) + 1] == '('
}

/// The position slice of a framed text runs forward and starts between characters.
pub open spec fn in_fs_path_well_sliced(b: Seq<u8>) -> bool {
    is_in_fs_framed(b) ==> {
        &&& fs_close(b) + 2 <= b.len() - 1
        &&& is_char_boundary(b, fs_close(b) + 2)
    }
}

/// The characters two bytes after the `]` up to, not including, the last byte.
pub open spec fn in_fs_position(b: Seq<u8>) -> Seq<char> {
    chars_of(b, fs_close(b) + 2, b.len() - 1)
}

/// Every character is numeric (none at all is allowed).
pub open spec fn is_numeric_run(s: Seq<char>) -> bool {
    forall|i: int| 0 <= i < s.len() ==> #[trigger] unicode_numeric(s[i])
}

/// `row;column`, the row numeric, the column `~` or numeric.
pub open spec fn is_fs_position(pos: Seq<char>) -> bool {
    let j = first_index(pos, ';');
    &&& j >= 0
    &&& is_numeric_run(pos.subrange(0, j))
    &&& (pos.subrange(j + 1, pos.len() as int) == seq!['~'] || is_numeric_run(
        pos.subrange(j + 1, pos.len() as int),
    ))
}

/// Opens with `[` and either ends with `]`, or is framed and ends with a position.
pub open spec fn is_in_fs_path_bytes(b: Seq<u8>) -> bool {
    &&& starts_with_byte(b, 0x5bu8)
    &&& (ends_with_byte(b, 0x5du8) || (is_in_fs_framed(b) && is_fs_position(in_fs_position(b))))
}

/// The quick address test: `$` opens a bare raw path, `<` a `$`-opened
/// shard text (which a text opened with `<` never is), `[` an in-filesystem
/// path; anything else is no address.
pub open spec fn is_address_path_bytes(b: Seq<u8>) -> bool {
    if starts_with_byte(b, 0x24u8) {
        is_bare_raw_path_bytes(b)
    } else if starts_with_byte(b, 0x3cu8) {
        is_dollar_shard_path_bytes(b)
    } else if starts_with_byte(b, 0x5bu8) {
        is_in_fs_path_bytes(b)
    } else {
        false
    }
}

/// What resolving a path starts from, before the store is asked.
#[derive(Debug)]
pub enum ResolvePlan {
    /// The path resolves to nothing; the store need not be asked.
    Nothing,
    /// Look the key up among notes and facets.
    RawKey(String),
    /// Walk the shard tree along the JSON array of segment names, then take
    /// the shard address with this name.
    ShardWalk { segments_json: String, name: String },
    /// Walk the node tree along the JSON array of segment names.
    FsWalk { segments_json: String },
    /// Resolve the address (it must lead to a note), then take the in-note
    /// address at this row and column text.
    InNote { address: AddressPath, line: Vec<char>, column: Vec<char> },
}

/// Where the first `:` stands among the bytes strictly inside a shard path (-1: nowhere).
pub open spec fn shard_colon(b: Seq<u8>) -> int {
    first_index(b.subrange(1, b.len() - 1), 0x3au8)
}

/// Where the first `(` stands among all bytes of an in-note path but the last (-1: nowhere).
pub open spec fn in_note_open(b: Seq<u8>) -> int {
    first_index(b.subrange(0, b.len() - 1), 0x28u8)
}

/// The position text of an in-note path being resolved: after its first
/// `(`, up to, not including, the last byte, spaces taken out.
pub open spec fn resolve_position(b: Seq<u8>) -> Seq<char> {
    without_spaces(chars_of(b, in_note_open(b) + 1, b.len() - 1))
}

/// The row and column an in-note address is looked up by: the row text
/// read as an `i64`, and the column text `~` (no column) or read as an `i64`.
pub fn in_note_position_numbers(line: &Vec<char>, column: &Vec<char>) -> (r: Result<
    (i64, Option<i64>),
    AddressError,
>)
    ensures
        match i64_text_value(line@) {
            None => r matches Err(AddressError::Number(_)),
            Some(row) => if column@ == seq!['~'] {
                r == Ok::<(i64, Option<i64>), AddressError>((row, None))
            } else {
                match i64_text_value(column@) {
                    None => r matches Err(AddressError::Number(_)),
                    Some(col) => r == Ok::<(i64, Option<i64>), AddressError>((row, Some(col))),
                }
            },
        },
{
    let row = match parse_i64(line) {
        Ok(v) => v,
        Err(e) => return Err(AddressError::Number(e)),
    };
    if column.len() == 1 && column[0] == '~' {
        proof {
            assert(column@ =~= seq!['~']);
        }
        return Ok((row, None));
    }
    proof {
        if column@ == seq!['~'] {
            assert(seq!['~'].len() == 1 && seq!['~'][0] == '~');
            assert(column@.len() == 1 && column@[0] == '~');
        }
    }
    match parse_i64(column) {
        Ok(v) => Ok((row, Some(v))),
        Err(e) => Err(AddressError::Number(e)),
    }
}

/// Every character of `v[from..to]` is numeric.
fn numeric_between(v: &Vec<char>, from: usize, to: usize) -> (r: bool)
    requires
        from <= to <= v@.len(),
    ensures
        r == is_numeric_run(v@.subrange(from as int, to as int)),
{
    let mut i: usize = from;
    while i < to
        invariant
            from <= i <= to <= v@.len(),
            forall|j: int| from <= j < i ==> #[trigger] unicode_numeric(v@[j]),
        decreases to - i,
    {
        if !is_numeric(v[i]) {
            proof {
                assert(!unicode_numeric(v@.subrange(from as int, to as int)[i - from]));
            }
            return false;
        }
        i = i + 1;
    }
    proof {
        let s = v@.subrange(from as int, to as int);
        assert forall|j: int| 0 <= j < s.len() implies #[trigger] unicode_numeric(s[j]) by {
            assert(s[j] == v@[from + j]);
        }
    }
    true
}

/// `pos` is `row;column` with numeric row and a `~` or numeric column.
fn fs_position_ok(pos: &Vec<char>) -> (r: bool)
    ensures
        r == is_fs_position(pos@),
{
    let j = match find_char_from(pos, ';', 0) {
        Some(j) => j,
        None => return false,
    };
    proof {
        lemma_first_index(pos@, ';');
    }
    if !numeric_between(pos, 0, j) {
        return false;
    }
    let n = pos.len();
    let ghost column = pos@.subrange(j + 1, n as int);
    if n - (j + 1) == 1 && pos[j + 1] == '~' {
        proof {
            assert(column =~= seq!['~']);
        }
        return true;
    }
    proof {
        if column == seq!['~'] {
            assert(seq!['~'].len() == 1 && seq!['~'][0] == '~');
            assert(column.len() == 1);
            assert(column[0] == pos@[j + 1]);
        }
    }
    numeric_between(pos, j + 1, n)
}

/// Every character of `v` is a `$`-shard character.
fn all_dollar_shard_chars(v: &Vec<char>) -> (r: bool)
    ensures
        r == forall|i: int| 0 <= i < v@.len() ==> #[trigger] is_dollar_shard_char(v@[i]),
{
    let mut i: usize = 0;
    while i < v.len()
        invariant
            i <= v@.len(),
            forall|j: int| 0 <= j < i ==> #[trigger] is_dollar_shard_char(v@[j]),
        decreases v@.len() - i,
    {
        let c = v[i];
        if !(is_alphanumeric(c) || c == '.') {
            assert(!is_dollar_shard_char(v@[i as int]));
            return false;
        }
        i = i + 1;
    }
    true
}

/// Every character of `v` is a raw-id character.
fn all_raw_id_chars(v: &Vec<char>) -> (r: bool)
    ensures
        r == forall|i: int| 0 <= i < v@.len() ==> #[trigger] is_raw_id_char(v@[i]),
{
    let mut i: usize = 0;
    while i < v.len()
        invariant
            i <= v@.len(),
            forall|j: int| 0 <= j < i ==> #[trigger] is_raw_id_char(v@[j]),
        decreases v@.len() - i,
    {
        let c = v[i];
        if !(ascii_alnum(c) || c == '-') {
            assert(!is_raw_id_char(v@[i as int]));
            return false;
        }
        i = i + 1;
    }
    true
}

/// Every character of `v` is a shard character.
fn all_shard_chars(v: &Vec<char>) -> (r: bool)
    ensures
        r == forall|i: int| 0 <= i < v@.len() ==> #[trigger] is_shard_char(v@[i]),
{
    let mut i: usize = 0;
    while i < v.len()
        invariant
            i <= v@.len(),
            forall|j: int| 0 <= j < i ==> #[trigger] is_shard_char(v@[j]),
        decreases v@.len() - i,
    {
        let c = v[i];
        if !(is_alphanumeric(c) || c == '.' || c == ':') {
            assert(!is_shard_char(v@[i as int]));
            return false;
        }
        i = i + 1;
    }
    true
}

/// `v[from..to]` is one or more ASCII digits.
fn digits_between(v: &Vec<char>, from: usize, to: usize) -> (r: bool)
    requires
        from <= to <= v@.len(),
    ensures
        r == is_digits(v@.subrange(from as int, to as int)),
{
    if from == to {
        return false;
    }
    let mut i: usize = from;
    while i < to
        invariant
            from <= i <= to <= v@.len(),
            forall|j: int| from <= j < i ==> #[trigger] is_ascii_digit(v@[j]),
        decreases to - i,
    {
        if !ascii_digit(v[i]) {
            proof {
                assert(!is_ascii_digit(v@.subrange(from as int, to as int)[i - from]));
            }
            return false;
        }
        i = i + 1;
    }
    proof {
        let s = v@.subrange(from as int, to as int);
        assert forall|j: int| 0 <= j < s.len() implies #[trigger] is_ascii_digit(s[j]) by {
            assert(s[j] == v@[from + j]);
        }
    }
    true
}

/// `pos` is a position `row;column`.
fn position_ok(pos: &Vec<char>) -> (r: bool)
    ensures
        r == is_position(pos@),
{
    let j = match find_char_from(pos, ';', 0) {
        Some(j) => j,
        None => return false,
    };
    proof {
        lemma_first_index(pos@, ';');
    }
    if !digits_between(pos, 0, j) {
        return false;
    }
    let n = pos.len();
    let ghost column = pos@.subrange(j + 1, n as int);
    if n - (j + 1) == 1 && pos[j + 1] == '~' {
        proof {
            assert(column =~= seq!['~']);
        }
        return true;
    }
    proof {
        if column == seq!['~'] {
            assert(seq!['~'].len() == 1 && seq!['~'][0] == '~');
            assert(column.len() == 1);
            assert(column[0] == pos@[j + 1]);
        }
    }
    digits_between(pos, j + 1, n)
}

impl AddressPath {
    /// Resolving is defined: the byte slices it takes run forward and cut
    /// between characters.
    pub open spec fn resolve_well_sliced(self) -> bool {
        match self {
            AddressPath::RawPath(s) => {
                let b = encode_utf8(s@);
                &&& 3 <= b.len()
                &&& is_char_boundary(b, 2)
                &&& is_char_boundary(b, b.len() - 1)
            },
            AddressPath::ShardPath(s) => {
                let b = encode_utf8(s@);
                &&& 2 <= b.len()
                &&& is_char_boundary(b, 1)
                &&& is_char_boundary(b, b.len() - 1)
            },
            AddressPath::FsPath(s) => {
                let b = encode_utf8(s@);
                b.len() >= 1 && is_char_boundary(b, 1)
            },
            AddressPath::InNotePath(s) => {
                let b = encode_utf8(s@);
                b.len() >= 1 && is_char_boundary(b, b.len() - 1)
            },
        }
    }

    /// The first step of resolving a path: a raw path gives the key between
    /// `$(` and `)`; a shard path `<a.b:name>` gives the segments `a`, `b` as
    /// a JSON array and `name` (nothing without a `:`); a filesystem path
    /// `[x/y..` gives everything after `[` cut at `/` as a JSON array; an
    /// in-note path `addr(row;col..` gives the address before the first `(`
    /// (kept when it opens with `[` or `<`) and the row and column texts.
    pub fn resolve_plan(&self) -> (r: Result<ResolvePlan, AddressError>)
        requires
            self.resolve_well_sliced(),
        ensures
            match self {
                AddressPath::RawPath(s) => {
                    let b = encode_utf8(s@);
                    &&& r matches Ok(ResolvePlan::RawKey(key))
                    &&& key@ == raw_path_key(b)
                },
                AddressPath::ShardPath(s) => {
                    let b = encode_utf8(s@);
                    let j = shard_colon(b);
                    &&& (j < 0 ==> (r matches Ok(ResolvePlan::Nothing)))
                    &&& j >= 0 ==> {
                        &&& r matches Ok(ResolvePlan::ShardWalk { segments_json, name })
                        &&& segments_json@ == json_string_array(
                            split_chars(chars_of(b, 1, 1 + j), '.'),
                        )
                        &&& name@ == chars_of(b, 2 + j, b.len() - 1)
                    }
                },
                AddressPath::FsPath(s) => {
                    let b = encode_utf8(s@);
                    &&& r matches Ok(ResolvePlan::FsWalk { segments_json })
                    &&& segments_json@ == json_string_array(
                        split_chars(chars_of(b, 1, b.len() as int), '/'),
                    )
                },
                AddressPath::InNotePath(s) => {
                    let b = encode_utf8(s@);
                    let j = in_note_open(b);
                    let pos = resolve_position(b);
                    let m = first_index(pos, ';');
                    if j < 0 || m < 0 || !(j > 0 && (b[0] == 0x5bu8 || b[0] == 0x3cu8)) {
                        r matches Ok(ResolvePlan::Nothing)
                    } else {
                        &&& r matches Ok(ResolvePlan::InNote { address, line, column })
                        &&& address.text() == chars_of(b, 0, j)
                        &&& (if b[0] == 0x5bu8 {
                            address is FsPath
                        } else {
                            address is ShardPath
                        })
                        &&& line@ == pos.subrange(0, m)
                        &&& column@ == pos.subrange(m + 1, pos.len() as int)
                    }
                },
            },
    {
        match self {
            AddressPath::RawPath(s) => {
                let p = s.as_str();
                let n = p.as_bytes().len();
                let key = substr(p, 2, n - 1).to_owned();
                Ok(ResolvePlan::RawKey(key))
            },
            AddressPath::ShardPath(s) => {
                let p = s.as_str();
                let ghost b = p.spec_bytes();
                let bytes = p.as_bytes();
                let n = bytes.len();
                let colon = match find_byte_between(bytes, 0x3au8, 1, n - 1) {
                    Some(k) => k,
                    None => return Ok(ResolvePlan::Nothing),
                };
                proof {
                    lemma_ascii_byte_boundaries(b, colon as int);
                }
                let shard_chars = substring_chars(p, 1, colon);
                let segments = split_at_char(&shard_chars, 0, shard_chars.len(), '.');
                proof {
                    assert(shard_chars@.subrange(0, shard_chars@.len() as int) =~= shard_chars@);
                }
                let name = substr(p, colon + 1, n - 1).to_owned();
                match to_json_string_array(&segments) {
                    Ok(segments_json) => Ok(ResolvePlan::ShardWalk { segments_json, name }),
                    Err(e) => Err(AddressError::Json(e)),
                }
            },
            AddressPath::FsPath(s) => {
                let p = s.as_str();
                let n = p.as_bytes().len();
                let rest = substring_chars(p, 1, n);
                let segments = split_at_char(&rest, 0, rest.len(), '/');
                proof {
                    assert(rest@.subrange(0, rest@.len() as int) =~= rest@);
                }
                match to_json_string_array(&segments) {
                    Ok(segments_json) => Ok(ResolvePlan::FsWalk { segments_json }),
                    Err(e) => Err(AddressError::Json(e)),
                }
            },
            AddressPath::InNotePath(s) => {
                let p = s.as_str();
                let ghost b = p.spec_bytes();
                let bytes = p.as_bytes();
                let n = bytes.len();
                let open = match find_byte_between(bytes, 0x28u8, 0, n - 1) {
                    Some(k) => k,
                    None => return Ok(ResolvePlan::Nothing),
                };
                proof {
                    lemma_ascii_byte_boundaries(b, open as int);
                }
                let inner = substring_chars(p, open + 1, n - 1);
                let pos = remove_spaces(&inner);
                let semi = match find_char_from(&pos, ';', 0) {
                    Some(m) => m,
                    None => return Ok(ResolvePlan::Nothing),
                };
                proof {
                    lemma_first_index(pos@, ';');
                }
                let line = copy_range(&pos, 0, semi);
                let pos_len = pos.len();
                let column = copy_range(&pos, semi + 1, pos_len);
                let head = substr(p, 0, open).to_owned();
                if open > 0 && bytes[0] == 0x5bu8 {
                    Ok(ResolvePlan::InNote { address: AddressPath::FsPath(head), line, column })
                } else if open > 0 && bytes[0] == 0x3cu8 {
                    Ok(ResolvePlan::InNote { address: AddressPath::ShardPath(head), line, column })
                } else {
                    Ok(ResolvePlan::Nothing)
                }
            },
        }
    }

    /// The string a path holds.
    pub open spec fn path_string(self) -> String {
        match self {
            AddressPath::RawPath(s) => s,
            AddressPath::ShardPath(s) => s,
            AddressPath::FsPath(s) => s,
            AddressPath::InNotePath(s) => s,
        }
    }

    /// Whether `parse` is defined on a text (`parse_well_sliced`).
    pub fn parse_is_defined(path: &str) -> (r: bool)
        ensures
            r == parse_well_sliced(path.spec_bytes()),
    {
        let ghost b = path.spec_bytes();
        let bytes = path.as_bytes();
        let n = bytes.len();
        if n == 0 {
            return true;
        }
        if bytes[0] == 0x3cu8 {
            return n >= 2 && path.is_char_boundary(1) && path.is_char_boundary(n - 1);
        }
        if bytes[0] != 0x5bu8 || Self::is_fs_path(path) {
            return true;
        }
        if bytes[n - 1] == 0x29u8 {
            return true;
        }
        let k = match find_byte(bytes, 0x5du8) {
            Some(k) => k,
            None => return true,
        };
        proof {
            lemma_first_index(b, 0x5du8);
        }
        if k + 1 >= n || bytes[k + 1] != 0x28u8 {
            return true;
        }
        proof {
            lemma_ascii_byte_boundaries(b, k as int);
        }
        let (address, _) = path.split_at(k);
        proof {
            assert(address.spec_bytes() =~= b.subrange(0, k as int));
        }
        if !Self::is_fs_path(address) {
            return true;
        }
        k + 2 <= n - 1 && path.is_char_boundary(n - 1)
    }

    /// Whether `resolve_plan` is defined on this path (`resolve_well_sliced`).
    pub fn resolve_is_defined(&self) -> (r: bool)
        ensures
            r == self.resolve_well_sliced(),
    {
        let p = match self {
            AddressPath::RawPath(s) => s.as_str(),
            AddressPath::ShardPath(s) => s.as_str(),
            AddressPath::FsPath(s) => s.as_str(),
            AddressPath::InNotePath(s) => s.as_str(),
        };
        let n = p.as_bytes().len();
        match self {
            AddressPath::RawPath(_) => 3 <= n && p.is_char_boundary(2) && p.is_char_boundary(n - 1),
            AddressPath::ShardPath(_) => 2 <= n && p.is_char_boundary(1) && p.is_char_boundary(
                n - 1,
            ),
            AddressPath::FsPath(_) => 1 <= n && p.is_char_boundary(1),
            AddressPath::InNotePath(_) => 1 <= n && p.is_char_boundary(n - 1),
        }
    }

    /// The quick test whether a text is an address path (see
    /// `is_address_path_bytes`).
    pub fn is_address_path(path: &str) -> (r: bool)
        requires
            starts_with_byte(path.spec_bytes(), 0x5bu8) ==> in_fs_path_well_sliced(
                path.spec_bytes(),
            ),
        ensures
            r == is_address_path_bytes(path.spec_bytes()),
    {
        let bytes = path.as_bytes();
        if bytes.len() == 0 {
            false
        } else if bytes[0] == 0x24u8 {
            Self::is_bare_raw_path(path)
        } else if bytes[0] == 0x3cu8 {
            Self::is_dollar_shard_path(path)
        } else if bytes[0] == 0x5bu8 {
            Self::is_in_fs_path(path)
        } else {
            false
        }
    }

    /// `$` + 36 ASCII letters, digits or `-`.
    fn is_bare_raw_path(path: &str) -> (r: bool)
        ensures
            r == is_bare_raw_path_bytes(path.spec_bytes()),
    {
        let ghost b = path.spec_bytes();
        let bytes = path.as_bytes();
        if !(bytes.len() == 37 && bytes[0] == 0x24u8) {
            return false;
        }
        proof {
            lemma_ascii_byte_boundaries(b, 0);
        }
        let id = substring_chars(path, 1, 37);
        all_raw_id_chars(&id)
    }

    /// A `$`-opened shard text (see `is_dollar_shard_path_bytes`).
    fn is_dollar_shard_path(path: &str) -> (r: bool)
        ensures
            r == is_dollar_shard_path_bytes(path.spec_bytes()),
    {
        let ghost b = path.spec_bytes();
        let bytes = path.as_bytes();
        let n = bytes.len();
        if !(n > 0 && bytes[0] == 0x24u8) {
            return false;
        }
        let end = match find_byte(bytes, 0x3eu8) {
            Some(end) => end,
            None => return false,
        };
        proof {
            lemma_first_index(b, 0x3eu8);
            lemma_ascii_byte_boundaries(b, end as int);
        }
        let head = substring_chars(path, 0, end);
        if !all_dollar_shard_chars(&head) {
            return false;
        }
        let opens = end + 1 < n && bytes[end + 1] == 0x28u8;
        proof {
            let rest = b.subrange(end + 1, b.len() as int);
            assert(opens == starts_with_byte(rest, 0x28u8)) by {
                if end + 1 < n {
                    assert(rest[0] == b[end + 1]);
                }
            }
        }
        opens && bytes[n - 1] == 0x29u8
    }

    /// Opens with `[` and ends with `]`, or ends with `)` after a framed
    /// numeric position (see `is_in_fs_path_bytes`).
    fn is_in_fs_path(path: &str) -> (r: bool)
        requires
            in_fs_path_well_sliced(path.spec_bytes()),
        ensures
            r == is_in_fs_path_bytes(path.spec_bytes()),
    {
        let ghost b = path.spec_bytes();
        let bytes = path.as_bytes();
        let n = bytes.len();
        if !(n > 0 && bytes[0] == 0x5bu8) {
            return false;
        }
        if bytes[n - 1] == 0x5du8 {
            return true;
        }
        if bytes[n - 1] != 0x29u8 {
            return false;
        }
        let close = match find_byte(bytes, 0x5du8) {
            Some(close) => close,
            None => return false,
        };
        proof {
            lemma_first_index(b, 0x5du8);
            assert(path@ == decode_utf8(b));
        }
        let chars_len = path.unicode_len();
        if !(close + 1 < chars_len && path.get_char(close + 1) == '(') {
            return false;
        }
        proof {
            lemma_ascii_byte_boundaries(b, n - 1);
        }
        let pos = substring_chars(path, close + 2, n - 1);
        fs_position_ok(&pos)
    }

    /// The text the path was made from.
    pub open spec fn text(self) -> Seq<char> {
        match self {
            AddressPath::RawPath(s) => s@,
            AddressPath::ShardPath(s) => s@,
            AddressPath::FsPath(s) => s@,
            AddressPath::InNotePath(s) => s@,
        }
    }

    /// Reads a path: the first character and the tests below decide its kind.
    pub fn parse(path: String) -> (r: Option<AddressPath>)
        requires
            parse_well_sliced(encode_utf8(path@)),
        ensures
            r == parse_spec(path),
    {
        let ghost b = encode_utf8(path@);
        let kind: u8 = {
            let p = path.as_str();
            let bytes = p.as_bytes();
            if bytes.len() == 0 {
                0
            } else if bytes[0] == 0x24u8 && Self::is_raw_path(p) {
                1
            } else if bytes[0] == 0x3cu8 && Self::is_fs_path(p) {
                3
            } else if bytes[0] == 0x3cu8 && Self::is_shard_path(p) {
                2
            } else if bytes[0] == 0x5bu8 && Self::is_fs_path(p) {
                3
            } else if bytes[0] == 0x5bu8 && Self::is_in_note_path(p) {
                4
            } else {
                0
            }
        };
        if kind == 1 {
            Some(AddressPath::RawPath(path))
        } else if kind == 2 {
            Some(AddressPath::ShardPath(path))
        } else if kind == 3 {
            Some(AddressPath::FsPath(path))
        } else if kind == 4 {
            Some(AddressPath::InNotePath(path))
        } else {
            None
        }
    }

    /// `$(` + 36 characters that are ASCII letters, digits or `-` + `)`.
    pub fn is_raw_path(path: &str) -> (r: bool)
        ensures
            r == is_raw_path_bytes(path.spec_bytes()),
    {
        let ghost b = path.spec_bytes();
        let bytes = path.as_bytes();
        if !(bytes.len() == 39 && bytes[0] == 0x24u8 && bytes[1] == 0x28u8 && bytes[38] == 0x29u8) {
            return false;
        }
        proof {
            lemma_ascii_byte_boundaries(b, 1);
            lemma_ascii_byte_boundaries(b, 38);
        }
        let id = substring_chars(path, 2, 38);
        all_raw_id_chars(&id)
    }

    /// Starts with `<` or ends with `>`, and what lies between the first and
    /// the last byte is alphanumeric, `.` or `:`.
    pub fn is_shard_path(path: &str) -> (r: bool)
        requires
            shard_path_well_sliced(path.spec_bytes()),
        ensures
            r == is_shard_path_bytes(path.spec_bytes()),
    {
        let bytes = path.as_bytes();
        let n = bytes.len();
        if !((n > 0 && bytes[0] == 0x3cu8) || (n > 0 && bytes[n - 1] == 0x3eu8)) {
            return false;
        }
        let inner = substring_chars(path, 1, n - 1);
        all_shard_chars(&inner)
    }

    /// Starts with `[` and ends with `]`.
    pub fn is_fs_path(path: &str) -> (r: bool)
        ensures
            r == is_fs_path_bytes(path.spec_bytes()),
    {
        let bytes = path.as_bytes();
        let n = bytes.len();
        n > 0 && bytes[0] == 0x5bu8 && bytes[n - 1] == 0x5du8
    }

    /// An address part (`<..>` passing the shard test or `[..]` passing the
    /// filesystem test), then `(`, then `row;column`, the last byte being
    /// anything but `)`.
    pub fn is_in_note_path(path: &str) -> (r: bool)
        requires
            in_note_path_well_sliced(path.spec_bytes()),
        ensures
            r == is_in_note_path_bytes(path.spec_bytes()),
    {
        let ghost b = path.spec_bytes();
        let bytes = path.as_bytes();
        let n = bytes.len();
        if n == 0 {
            return false;
        }
        let opener = bytes[0];
        if opener != 0x3cu8 && opener != 0x5bu8 {
            return false;
        }
        if bytes[n - 1] == 0x29u8 {
            return false;
        }
        let closer: u8 = if opener == 0x3cu8 {
            0x3eu8
        } else {
            0x5du8
        };
        let k = match find_byte(bytes, closer) {
            Some(k) => k,
            None => return false,
        };
        proof {
            lemma_first_index(b, closer);
        }
        if k + 1 >= n || bytes[k + 1] != 0x28u8 {
            return false;
        }
        proof {
            lemma_ascii_byte_boundaries(b, k as int);
        }
        let (address, _) = path.split_at(k);
        proof {
            assert(address.spec_bytes() =~= b.subrange(0, k as int));
        }
        let address_ok = if opener == 0x3cu8 {
            Self::is_shard_path(address)
        } else {
            Self::is_fs_path(address)
        };
        if !address_ok {
            return false;
        }
        proof {
            lemma_ascii_byte_boundaries(b, k + 1);
        }
        let inner = substring_chars(path, k + 2, n - 1);
        let pos = remove_spaces(&inner);
        position_ok(&pos)
    }
}

} // verus!
