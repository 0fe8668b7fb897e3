//! Byte- and character-level helpers shared by the address-path grammar.
use vstd::prelude::*;
use vstd::utf8::*;
use vstd::string::*;

verus! {

broadcast use vstd::utf8::encode_utf8_valid_utf8, vstd::utf8::encode_utf8_decode_utf8;

/// The characters encoded by the bytes `from..to` of a UTF-8 byte sequence.
pub open spec fn chars_of(b: Seq<u8>, from: int, to: int) -> Seq<char> {
    decode_utf8(b.subrange(from, to))
}

/// A byte that stands for one ASCII character.
pub open spec fn is_ascii_byte(x: u8) -> bool {
    x < 0x80
}

/// In valid UTF-8, the position right after a one-byte (ASCII) character
/// that starts at a character boundary is again a character boundary.
pub proof fn lemma_boundary_after_ascii(b: Seq<u8>, j: int)
    requires
        valid_utf8(b),
        is_char_boundary(b, j),
        0 <= j < b.len(),
        is_ascii_byte(b[j]),
    ensures
        is_char_boundary(b, j + 1),
    decreases b.len(),
{
    let rest = pop_first_scalar(b);
    assert(length_of_first_scalar(b) >= 1);
    if j == 0 {
        assert(length_of_first_scalar(b) == 1);
        assert(is_char_boundary(rest, 0));
    } else {
        let l = length_of_first_scalar(b);
        assert(j - l >= 0);
        assert(rest.len() == b.len() - l);
        assert(rest[j - l] == b[j]);
        lemma_boundary_after_ascii(rest, j - l);
    }
}

/// In valid UTF-8, an ASCII byte begins a character, and the byte after it
/// begins the next one (or ends the sequence).
pub proof fn lemma_ascii_byte_boundaries(b: Seq<u8>, i: int)
    requires
        valid_utf8(b),
        0 <= i < b.len(),
        is_ascii_byte(b[i]),
    ensures
        is_char_boundary(b, i),
        is_char_boundary(b, i + 1),
{
    is_char_boundary_iff_not_is_continuation_byte(b, i);
    lemma_boundary_after_ascii(b, i);
}

/// A character boundary of a valid UTF-8 sequence at or after `from` stays a
/// boundary of the suffix that starts at the boundary `from`.
pub proof fn lemma_boundary_in_suffix(b: Seq<u8>, from: int, to: int)
    requires
        valid_utf8(b),
        0 <= from <= to <= b.len(),
        is_char_boundary(b, from),
        is_char_boundary(b, to),
    ensures
        valid_utf8(b.subrange(from, b.len() as int)),
        is_char_boundary(b.subrange(from, b.len() as int), to - from),
{
    let rest = b.subrange(from, b.len() as int);
    valid_utf8_split(b, from);
    if to == b.len() {
        is_char_boundary_start_end_of_seq(rest);
    } else {
        is_char_boundary_iff_not_is_continuation_byte(b, to);
        is_char_boundary_iff_not_is_continuation_byte(rest, to - from);
    }
}

/// The bytes `from..to` of `s` as a string slice (what `&s[from..to]` gives).
pub fn substr(s: &str, from: usize, to: usize) -> (r: &str)
    requires
        from <= to <= s.spec_bytes().len(),
        is_char_boundary(s.spec_bytes(), from as int),
        is_char_boundary(s.spec_bytes(), to as int),
    ensures
        r.spec_bytes() == s.spec_bytes().subrange(from as int, to as int),
        r@ == chars_of(s.spec_bytes(), from as int, to as int),
{
    let ghost b = s.spec_bytes();
    let (_, rest) = s.split_at(from);
    proof {
        lemma_boundary_in_suffix(b, from as int, to as int);
    }
    let (mid, _) = rest.split_at(to - from);
    proof {
        assert(mid.spec_bytes() =~= b.subrange(from as int, to as int));
        assert(decode_utf8(encode_utf8(mid@)) == mid@);
    }
    mid
}

/// The characters of the bytes `from..to` of `s`, read through a substring.
pub fn substring_chars(s: &str, from: usize, to: usize) -> (v: Vec<char>)
    requires
        from <= to <= s.spec_bytes().len(),
        is_char_boundary(s.spec_bytes(), from as int),
        is_char_boundary(s.spec_bytes(), to as int),
    ensures
        v@ == chars_of(s.spec_bytes(), from as int, to as int),
{
    let ghost b = s.spec_bytes();
    let (_, rest) = s.split_at(from);
    proof {
        lemma_boundary_in_suffix(b, from as int, to as int);
    }
    let (mid, _) = rest.split_at(to - from);
    proof {
        assert(mid.spec_bytes() =~= b.subrange(from as int, to as int));
        assert(decode_utf8(encode_utf8(mid@)) == mid@);
    }
    let n = mid.unicode_len();
    let mut v: Vec<char> = Vec::new();
    let mut i: usize = 0;
    while i < n
        invariant
            n == mid@.len(),
            i <= n,
            v@ == mid@.subrange(0, i as int),
        decreases n - i,
    {
        v.push(mid.get_char(i));
        i = i + 1;
    }
    proof {
        assert(mid@.subrange(0, n as int) =~= mid@);
    }
    v
}

/// `b` is not empty and its first byte is `x`.
pub open spec fn starts_with_byte(b: Seq<u8>, x: u8) -> bool {
    b.len() > 0 && b[0] == x
}

/// `b` is not empty and its last byte is `x`.
pub open spec fn ends_with_byte(b: Seq<u8>, x: u8) -> bool {
    b.len() > 0 && b[b.len() - 1] == x
}

/// The first index at or after `i` where `s` holds `x`, or -1 when there is none.
pub open spec fn first_index_from<A>(s: Seq<A>, x: A, i: int) -> int
    decreases s.len() - i,
{
    if i < 0 || i >= s.len() {
        -1
    } else if s[i] == x {
        i
    } else {
        first_index_from(s, x, i + 1)
    }
}

/// The first index where `s` holds `x`, or -1 when `x` does not occur.
pub open spec fn first_index<A>(s: Seq<A>, x: A) -> int {
    first_index_from(s, x, 0)
}

/// What `first_index_from` finds: the earliest occurrence at or after `i`.
pub proof fn lemma_first_index_from<A>(s: Seq<A>, x: A, i: int)
    requires
        0 <= i,
    ensures
        first_index_from(s, x, i) == -1 ==> forall|j: int| i <= j < s.len() ==> s[j] != x,
        first_index_from(s, x, i) != -1 ==> {
            &&& i <= first_index_from(s, x, i) < s.len()
            &&& s[first_index_from(s, x, i)] == x
            &&& forall|j: int| i <= j < first_index_from(s, x, i) ==> s[j] != x
        },
    decreases s.len() - i,
{
    if i < s.len() && s[i] != x {
        lemma_first_index_from(s, x, i + 1);
    }
}

/// What `first_index` finds: the earliest occurrence.
pub proof fn lemma_first_index<A>(s: Seq<A>, x: A)
    ensures
        first_index(s, x) == -1 ==> forall|j: int| 0 <= j < s.len() ==> s[j] != x,
        first_index(s, x) != -1 ==> {
            &&& 0 <= first_index(s, x) < s.len()
            &&& s[first_index(s, x)] == x
            &&& forall|j: int| 0 <= j < first_index(s, x) ==> s[j] != x
        },
{
    lemma_first_index_from(s, x, 0);
}

/// The index of the first byte `x` in `b`.
pub fn find_byte(b: &[u8], x: u8) -> (r: Option<usize>)
    ensures
        r matches Some(k) ==> k as int == first_index(b@, x),
        r is None ==> first_index(b@, x) == -1,
{
    let mut i: usize = 0;
    while i < b.len()
        invariant
            i <= b@.len(),
            first_index(b@, x) == first_index_from(b@, x, i as int),
        decreases b@.len() - i,
    {
        if b[i] == x {
            return Some(i);
        }
        i = i + 1;
    }
    None
}

/// The index of the first byte `x` among `b[from..to]`.
pub fn find_byte_between(b: &[u8], x: u8, from: usize, to: usize) -> (r: Option<usize>)
    requires
        from <= to <= b@.len(),
    ensures
        r matches Some(k) ==> k - from == first_index(b@.subrange(from as int, to as int), x),
        r matches Some(k) ==> from <= k < to && b@[k as int] == x,
        r is None ==> first_index(b@.subrange(from as int, to as int), x) == -1,
{
    let ghost sub = b@.subrange(from as int, to as int);
    let mut i: usize = from;
    while i < to
        invariant
            from <= i <= to <= b@.len(),
            sub == b@.subrange(from as int, to as int),
            first_index(sub, x) == first_index_from(sub, x, i - from),
        decreases to - i,
    {
        if b[i] == x {
            assert(sub[i - from] == x);
            return Some(i);
        }
        assert(sub[i - from] != x);
        i = i + 1;
    }
    None
}

/// A copy of `v[from..to]`.
pub fn copy_range(v: &Vec<char>, from: usize, to: usize) -> (r: Vec<char>)
    requires
        from <= to <= v@.len(),
    ensures
        r@ == v@.subrange(from as int, to as int),
{
    let mut r: Vec<char> = Vec::new();
    let mut i: usize = from;
    while i < to
        invariant
            from <= i <= to <= v@.len(),
            r@ == v@.subrange(from as int, i as int),
        decreases to - i,
    {
        r.push(v[i]);
        proof {
            assert(r@ =~= v@.subrange(from as int, i + 1));
        }
        i = i + 1;
    }
    r
}

/// The index of the first `x` among `v[from..]`.
pub fn find_char_from(v: &Vec<char>, x: char, from: usize) -> (r: Option<usize>)
    requires
        from <= v@.len(),
    ensures
        r matches Some(k) ==> k as int == first_index_from(v@, x, from as int),
        r is None ==> first_index_from(v@, x, from as int) == -1,
{
    let mut i: usize = from;
    while i < v.len()
        invariant
            from <= i <= v@.len(),
            first_index_from(v@, x, from as int) == first_index_from(v@, x, i as int),
        decreases v@.len() - i,
    {
        if v[i] == x {
            return Some(i);
        }
        i = i + 1;
    }
    None
}

/// `c` is one of `0-9`, `a-z`, `A-Z`.
pub open spec fn is_ascii_alnum(c: char) -> bool {
    ||| 0x30 <= c as u32 <= 0x39
    ||| 0x41 <= c as u32 <= 0x5a
    ||| 0x61 <= c as u32 <= 0x7a
}

/// `c` is one of `0-9`.
pub open spec fn is_ascii_digit(c: char) -> bool {
    0x30 <= c as u32 <= 0x39
}

/// Executable form of `is_ascii_alnum` (what `char::is_ascii_alphanumeric` answers).
pub fn ascii_alnum(c: char) -> (r: bool)
    ensures
        r == is_ascii_alnum(c),
{
    let u = c as u32;
    (0x30 <= u && u <= 0x39) || (0x41 <= u && u <= 0x5a) || (0x61 <= u && u <= 0x7a)
}

/// Executable form of `is_ascii_digit` (what `char::is_ascii_digit` answers).
pub fn ascii_digit(c: char) -> (r: bool)
    ensures
        r == is_ascii_digit(c),
{
    let u = c as u32;
    0x30 <= u && u <= 0x39
}

/// What `char::is_alphanumeric` answers for `c` (Unicode Alphabetic or Numeric).
pub uninterp spec fn unicode_alphanumeric(c: char) -> bool;

/// What `char::is_numeric` answers for `c` (Unicode general categories Nd, Nl, No).
pub uninterp spec fn unicode_numeric(c: char) -> bool;

/// Calls `char::is_alphanumeric`; its answer is named, not restated.
#[verifier::external_body]
pub(crate) fn is_alphanumeric(c: char) -> (r: bool)
    ensures
        r == unicode_alphanumeric(c),
{
    c.is_alphanumeric()
}

/// Calls `char::is_numeric`; its answer is named, not restated.
#[verifier::external_body]
pub(crate) fn is_numeric(c: char) -> (r: bool)
    ensures
        r == unicode_numeric(c),
{
    c.is_numeric()
}

/// The characters of `s` with every space `' '` taken out, in order.
pub open spec fn without_spaces(s: Seq<char>) -> Seq<char>
    decreases s.len(),
{
    if s.len() == 0 {
        s
    } else if s.last() == ' ' {
        without_spaces(s.drop_last())
    } else {
        without_spaces(s.drop_last()).push(s.last())
    }
}

/// Taking the spaces out keeps every other character, in order: it is the
/// text filtered by "is not a space".
pub proof fn lemma_without_spaces_filters(s: Seq<char>)
    ensures
        without_spaces(s) == s.filter(|c: char| c != ' '),
    decreases s.len(),
{
    reveal(Seq::filter);
    if s.len() > 0 {
        lemma_without_spaces_filters(s.drop_last());
    }
}

/// The ASCII classes as character ranges: a digit is `0`..=`9`; a letter or
/// digit is one of `0`..=`9`, `a`..=`z`, `A`..=`Z`.
pub proof fn lemma_ascii_classes(c: char)
    ensures
        is_ascii_digit(c) <==> ('0' <= c && c <= '9'),
        is_ascii_alnum(c) <==> (('0' <= c && c <= '9') || ('a' <= c && c <= 'z') || ('A' <= c
            && c <= 'Z')),
{
}

/// Takes the spaces out of `v` (what `str::replace(' ', "")` does).
pub fn remove_spaces(v: &Vec<char>) -> (r: Vec<char>)
    ensures
        r@ == without_spaces(v@),
{
    let mut r: Vec<char> = Vec::new();
    let mut i: usize = 0;
    while i < v.len()
        invariant
            i <= v@.len(),
            r@ == without_spaces(v@.subrange(0, i as int)),
        decreases v@.len() - i,
    {
        proof {
            assert(v@.subrange(0, i + 1).drop_last() =~= v@.subrange(0, i as int));
        }
        if v[i] != ' ' {
            r.push(v[i]);
        }
        i = i + 1;
    }
    proof {
        assert(v@.subrange(0, v@.len() as int) =~= v@);
    }
    r
}

/// The pieces of `s` between the separators `sep`, in order (what
/// `str::split` yields): one more piece than there are separators.
pub open spec fn split_chars(s: Seq<char>, sep: char) -> Seq<Seq<char>>
    decreases s.len(),
{
    if s.len() == 0 {
        seq![Seq::<char>::empty()]
    } else {
        let r = split_chars(s.drop_last(), sep);
        if s.last() == sep {
            r.push(Seq::<char>::empty())
        } else {
            r.update(r.len() - 1, r.last().push(s.last()))
        }
    }
}

/// The pieces joined back together, `sep` between each two.
pub open spec fn join_with(pieces: Seq<Seq<char>>, sep: char) -> Seq<char>
    decreases pieces.len(),
{
    if pieces.len() == 0 {
        Seq::empty()
    } else if pieces.len() == 1 {
        pieces[0]
    } else {
        join_with(pieces.drop_last(), sep).push(sep) + pieces.last()
    }
}

/// Adding a character to the last piece adds it to the end of the joined text.
proof fn lemma_join_extend_last(pieces: Seq<Seq<char>>, sep: char, c: char)
    requires
        pieces.len() > 0,
    ensures
        join_with(pieces.update(pieces.len() - 1, pieces.last().push(c)), sep) == join_with(
            pieces,
            sep,
        ).push(c),
{
    let q = pieces.update(pieces.len() - 1, pieces.last().push(c));
    if pieces.len() > 1 {
        assert(q.drop_last() =~= pieces.drop_last());
        assert(join_with(q, sep) =~= join_with(pieces, sep).push(c));
    }
}

/// Splitting cuts at `sep` and nowhere else: the pieces, joined back with
/// `sep`, give the text again, and no piece holds `sep`. So a text without
/// `sep` is one piece, itself.
pub proof fn lemma_split_chars_cuts_only_at_sep(s: Seq<char>, sep: char)
    ensures
        split_chars(s, sep).len() >= 1,
        join_with(split_chars(s, sep), sep) == s,
        forall|i: int|
            0 <= i < split_chars(s, sep).len() ==> !(#[trigger] split_chars(s, sep)[i]).contains(
                sep,
            ),
        !s.contains(sep) ==> split_chars(s, sep) == seq![s],
    decreases s.len(),
{
    if s.len() == 0 {
        assert(join_with(seq![Seq::<char>::empty()], sep) =~= s);
    } else {
        let t = s.drop_last();
        let c = s.last();
        lemma_split_chars_cuts_only_at_sep(t, sep);
        let r = split_chars(t, sep);
        if c == sep {
            let q = r.push(Seq::<char>::empty());
            assert(q.drop_last() =~= r);
            assert(join_with(q, sep) =~= s);
            assert forall|i: int| 0 <= i < q.len() implies !(#[trigger] q[i]).contains(sep) by {
                if i < r.len() {
                    assert(q[i] == r[i]);
                }
            }
        } else {
            let q = r.update(r.len() - 1, r.last().push(c));
            lemma_join_extend_last(r, sep, c);
            assert(t.push(c) =~= s);
            assert forall|i: int| 0 <= i < q.len() implies !(#[trigger] q[i]).contains(sep) by {
                if i < r.len() - 1 {
                    assert(q[i] == r[i]);
                } else {
                    let p = r.last().push(c);
                    assert(!r[r.len() - 1].contains(sep));
                    if p.contains(sep) {
                        let k = choose|k: int| 0 <= k < p.len() && p[k] == sep;
                        if k < p.len() - 1 {
                            assert(r.last()[k] == sep);
                        }
                    }
                }
            }
        }
        if !s.contains(sep) {
            assert(!t.contains(sep)) by {
                if t.contains(sep) {
                    let k = choose|k: int| 0 <= k < t.len() && t[k] == sep;
                    assert(s[k] == sep);
                }
            }
            assert(s[s.len() - 1] == c);
            assert(split_chars(s, sep) =~= seq![s]) by {
                assert(r =~= seq![t]);
            }
        }
    }
}

/// Cuts `v[from..to]` at every `sep`.
pub fn split_at_char(v: &Vec<char>, from: usize, to: usize, sep: char) -> (r: Vec<Vec<char>>)
    requires
        from <= to <= v@.len(),
    ensures
        r.deep_view() == split_chars(v@.subrange(from as int, to as int), sep),
{
    let ghost s = v@.subrange(from as int, to as int);
    let mut done: Vec<Vec<char>> = Vec::new();
    let mut cur: Vec<char> = Vec::new();
    let mut i: usize = from;
    while i < to
        invariant
            from <= i <= to <= v@.len(),
            s == v@.subrange(from as int, to as int),
            done.deep_view().push(cur@) == split_chars(s.subrange(0, i - from), sep),
        decreases to - i,
    {
        proof {
            assert(s.subrange(0, i + 1 - from).drop_last() =~= s.subrange(0, i - from));
            assert(s.subrange(0, i + 1 - from).last() == v@[i as int]);
        }
        let c = v[i];
        if c == sep {
            let ghost before = done.deep_view();
            let piece = cur;
            proof {
                assert(piece.deep_view() =~= piece@);
            }
            let ghost old_done = done@;
            done.push(piece);
            cur = Vec::new();
            proof {
                assert(done@ == old_done.push(piece));
                assert(done.deep_view() =~= before.push(piece@)) by {
                    assert forall|k: int| 0 <= k < before.len() implies #[trigger] done.deep_view()[k]
                        == before[k] by {
                        assert(done@[k] == old_done[k]);
                    }
                }
                assert(cur@ =~= Seq::<char>::empty());
            }
        } else {
            let ghost before = done.deep_view();
            cur.push(c);
            proof {
                assert(before.push(cur@) =~= before.push(cur@.drop_last()).update(
                    before.len() as int,
                    cur@,
                ));
            }
        }
        i = i + 1;
    }
    proof {
        assert(s.subrange(0, to - from) =~= s);
    }
    let ghost before = done.deep_view();
    let ghost old_done = done@;
    proof {
        assert(cur.deep_view() =~= cur@);
    }
    let ghost last = cur@;
    done.push(cur);
    proof {
        assert(done.deep_view() =~= before.push(last)) by {
            assert forall|k: int| 0 <= k < before.len() implies #[trigger] done.deep_view()[k]
                == before[k] by {
                assert(done@[k] == old_done[k]);
            }
        }
    }
    done
}

/// Whether two texts are the same.
pub fn same_text(a: &str, b: &str) -> (r: bool)
    ensures
        r == (a@ == b@),
{
    let x = a.as_bytes();
    let y = b.as_bytes();
    proof {
        assert(decode_utf8(encode_utf8(a@)) == a@);
        assert(decode_utf8(encode_utf8(b@)) == b@);
    }
    if x.len() != y.len() {
        return false;
    }
    let mut i: usize = 0;
    while i < x.len()
        invariant
            x@ == a.spec_bytes(),
            y@ == b.spec_bytes(),
            x@.len() == y@.len(),
            i <= x@.len(),
            forall|j: int| 0 <= j < i ==> x@[j] == y@[j],
        decreases x@.len() - i,
    {
        if x[i] != y[i] {
            return false;
        }
        i = i + 1;
    }
    proof {
        assert(x@ =~= y@);
    }
    true
}

/// The value of a run of decimal digits.
pub open spec fn decimal_value(s: Seq<char>) -> int
    decreases s.len(),
{
    if s.len() == 0 {
        0
    } else {
        decimal_value(s.drop_last()) * 10 + (s.last() as u32 - 0x30)
    }
}

/// Digits read left to right: the value of two runs of digits written one
/// after the other is the first value shifted by as many places as the
/// second has digits, plus the second value.
pub proof fn lemma_decimal_value_concat(a: Seq<char>, b: Seq<char>)
    ensures
        decimal_value(a + b) == decimal_value(a) * vstd::arithmetic::power::pow(10, b.len())
            + decimal_value(b),
    decreases b.len(),
{
    if b.len() == 0 {
        assert(a + b =~= a);
        reveal(vstd::arithmetic::power::pow);
    } else {
        let b0 = b.drop_last();
        lemma_decimal_value_concat(a, b0);
        assert((a + b).drop_last() =~= a + b0);
        assert((a + b).last() == b.last());
        reveal(vstd::arithmetic::power::pow);
        let p = vstd::arithmetic::power::pow(10, b0.len());
        assert(vstd::arithmetic::power::pow(10, b.len()) == 10 * p);
        let x = decimal_value(a);
        let y = decimal_value(b0);
        assert((x * p + y) * 10 == x * (10 * p) + y * 10) by (nonlinear_arith);
    }
}

/// A single digit is worth itself.
pub proof fn lemma_decimal_value_digit(d: char)
    requires
        is_ascii_digit(d),
    ensures
        decimal_value(seq![d]) == d as u32 - 0x30,
{
    assert(seq![d].drop_last() =~= Seq::<char>::empty());
    assert(decimal_value(Seq::<char>::empty()) == 0);
    assert(seq![d].last() == d);
}

/// The digits of a signed decimal text: without its leading `+` or `-`.
pub open spec fn unsigned_part(s: Seq<char>) -> Seq<char> {
    if s.len() > 0 && (s[0] == '-' || s[0] == '+') {
        s.drop_first()
    } else {
        s
    }
}

/// What `str::parse::<i64>` accepts and gives: an optional `+` or `-`,
/// then one or more ASCII digits, whose value fits in an `i64`.
pub open spec fn i64_text_value(s: Seq<char>) -> Option<i64> {
    let digits = unsigned_part(s);
    let v = if s.len() > 0 && s[0] == '-' {
        -decimal_value(digits)
    } else {
        decimal_value(digits)
    };
    if digits.len() > 0 && (forall|i: int| 0 <= i < digits.len() ==> #[trigger] is_ascii_digit(digits[i]))
        && i64::MIN <= v <= i64::MAX {
        Some(v as i64)
    } else {
        None
    }
}

/// The sign of a decimal text: a leading `+` changes nothing, a leading `-`
/// negates the value of the digits after it (when both fit in an `i64`).
pub proof fn lemma_i64_text_sign(digits: Seq<char>)
    requires
        digits.len() > 0,
        is_ascii_digit(digits[0]),
    ensures
        i64_text_value(seq!['+'] + digits) == i64_text_value(digits),
        (i64_text_value(digits) is Some && i64_text_value(digits)->0 > i64::MIN) ==> i64_text_value(
            seq!['-'] + digits,
        ) == Some((-i64_text_value(digits)->0) as i64),
{
    assert((seq!['+'] + digits).drop_first() =~= digits);
    assert((seq!['-'] + digits).drop_first() =~= digits);
    assert(unsigned_part(digits) == digits);
}

/// The error `str::parse::<i64>` reports.
#[verifier::external_type_specification]
#[verifier::external_body]
pub struct ExParseIntError(core::num::ParseIntError);

/// Calls `str::parse::<i64>` on the text of `s`: it succeeds exactly on an
/// optional sign followed by decimal digits whose value fits, and gives that
/// value.
#[verifier::external_body]
pub(crate) fn parse_i64(s: &Vec<char>) -> (r: Result<i64, core::num::ParseIntError>)
    ensures
        r matches Ok(v) ==> i64_text_value(s@) == Some(v),
        r is Err ==> i64_text_value(s@) is None,
{
    let text: String = s.iter().collect();
    text.parse::<i64>()
}

} // verus!
