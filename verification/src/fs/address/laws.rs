//! Properties that hold across the address functions.
use vstd::prelude::*;
use vstd::utf8::*;

use crate::fs::address::address_owner::{AddressOwner, AddressQuery, NoteOrFacet};
use crate::fs::address::address_path::{
    in_note_close, in_note_open, in_note_path_well_sliced, in_note_position, is_dollar_shard_char,
    is_fs_path_bytes, is_in_note_path_bytes, is_position, is_raw_id_char, is_shard_char,
    is_raw_path_bytes, is_shard_marked, is_shard_path_bytes, parse_spec, raw_path_key, resolve_position, AddressPath,
};
use crate::db::entity::{FsAddressRow, ShardAddressRow};
use crate::fs::address::resolved_address::{OwnerQuery, ResolvedAddress};
use crate::fs::address::AddressError;
use crate::text::{
    chars_of, first_index, is_ascii_alnum, lemma_first_index, starts_with_byte, unicode_alphanumeric,
};

verus! {

/// Parsing keeps the text: a parsed path holds exactly the string it was
/// read from.
pub proof fn lemma_parse_keeps_text(path: String)
    ensures
        parse_spec(path) matches Some(a) ==> a.path_string() == path && a.text() == path@,
{
}

/// The address part of an in-note path is always a shard path: a text
/// opened with `[` never passes the in-note test, since the part before its
/// first `]` cannot end with `]`.
pub proof fn lemma_in_note_paths_open_with_angle(b: Seq<u8>)
    requires
        is_in_note_path_bytes(b),
    ensures
        b[0] == 0x3cu8,
{
    if b[0] != 0x3cu8 {
        let k = in_note_close(b);
        lemma_first_index(b, 0x5du8);
        let head = b.subrange(0, k);
        assert(is_fs_path_bytes(head));
        assert(head[head.len() - 1] == b[k - 1]);
    }
}

/// Parsing never yields an in-note path: the only texts it would read as
/// one open with `[`, and those never pass the in-note test.
pub proof fn lemma_parse_never_in_note(path: String)
    ensures
        !(parse_spec(path) matches Some(AddressPath::InNotePath(_))),
{
    let b = encode_utf8(path@);
    if starts_with_byte(b, 0x5bu8) && is_in_note_path_bytes(b) {
        lemma_in_note_paths_open_with_angle(b);
    }
}

/// The first occurrence of `x` is at `i` when `s[i]` is `x` and no earlier
/// element is.
proof fn lemma_first_index_at<A>(s: Seq<A>, x: A, i: int)
    requires
        0 <= i < s.len(),
        s[i] == x,
        forall|j: int| 0 <= j < i ==> s[j] != x,
    ensures
        first_index(s, x) == i,
{
    lemma_first_index(s, x);
}

/// What the in-note test accepts, resolving splits the same way: the
/// address ends with the closing `>` the test found, and the position text
/// is the one the test read, so it has a row and a column. This needs no
/// `(` before that `>`; the test does not look at the byte right before the
/// `>`, and a `(` there would split the text earlier.
pub proof fn lemma_in_note_test_and_resolve_agree(s: String)
    requires
        is_in_note_path_bytes(encode_utf8(s@)),
        in_note_path_well_sliced(encode_utf8(s@)),
        first_index(
            encode_utf8(s@).subrange(0, in_note_close(encode_utf8(s@))),
            0x28u8,
        ) == -1,
    ensures
        AddressPath::InNotePath(s).resolve_well_sliced(),
        encode_utf8(s@)[0] == 0x3cu8,
        in_note_open(encode_utf8(s@)) == in_note_close(encode_utf8(s@)) + 1,
        resolve_position(encode_utf8(s@)) == in_note_position(encode_utf8(s@)),
        is_position(resolve_position(encode_utf8(s@))),
{
    let b = encode_utf8(s@);
    let k = in_note_close(b);
    let n = b.len();
    lemma_in_note_paths_open_with_angle(b);
    lemma_first_index(b, 0x3eu8);
    let head = b.subrange(0, k);
    lemma_first_index(head, 0x28u8);
    let t = b.subrange(0, n - 1);
    assert forall|j: int| 0 <= j < k + 1 implies t[j] != 0x28u8 by {
        if j < k {
            assert(head[j] == b[j]);
        }
    }
    lemma_first_index_at(t, 0x28u8, k + 1);
}

/// A raw path that finds a note or a facet resolves to the same address row
/// as that note or facet is named by.
pub proof fn lemma_raw_path_row_agrees_with_owner(row: NoteOrFacet, owner: AddressOwner)
    requires
        match owner {
            AddressOwner::Note(n) => row.kind@ == "note"@ && n.key == row.key
                && n.address_type@ == row.address_type@,
            AddressOwner::Facet(f) => row.kind@ == "facet"@ && f.key == row.key
                && f.facet_address_type@ == row.address_type@,
            _ => false,
        },
    ensures
        row.address_lookup() == owner.address_lookup(),
{
    reveal_strlit("note");
    reveal_strlit("facet");
    assert("note"@.len() == 4 && "facet"@.len() == 5);
}

impl OwnerQuery {
    /// `owner` is the row this query fetches (by key; a file's content and a
    /// link's target come along with the query).
    pub open spec fn finds_owner(self, owner: AddressOwner) -> bool {
        match (self, owner) {
            (OwnerQuery::UnsetFile { node_key }, AddressOwner::UnsetFile(n)) => n.key == node_key,
            (OwnerQuery::RawFile { node_key, data }, AddressOwner::RawFile(n, d)) => n.key
                == node_key && d@ == data@,
            (OwnerQuery::Note { note_key }, AddressOwner::Note(n)) => n.key == note_key,
            (OwnerQuery::Symlink { node_key, target }, AddressOwner::Symlink(n, t)) => n.key
                == node_key && t == target,
            (OwnerQuery::Facet { facet_key }, AddressOwner::Facet(f)) => f.key == facet_key,
            _ => false,
        }
    }
}

impl AddressQuery {
    /// `addr` is a row this query fetches.
    pub open spec fn finds_address(self, addr: ResolvedAddress) -> bool {
        match (self, addr) {
            (AddressQuery::FsAddressByNoteKey(k), ResolvedAddress::FsAddr(a)) => a.note_key == Some(
                k,
            ),
            (AddressQuery::FsAddressByNodeKey(k), ResolvedAddress::FsAddr(a)) => a.node_key == k,
            (AddressQuery::ShardAddressByNoteKey(k), ResolvedAddress::ShardAddr(a)) => a.note_key
                == Some(k),
            (AddressQuery::ShardAddressByFacetKey(k), ResolvedAddress::ShardAddr(a)) => a.facet_key
                == Some(k),
            (AddressQuery::InNoteAddressByFacetKey(k), ResolvedAddress::InNoteAddr(a)) => a.facet_key
                == k,
            _ => false,
        }
    }
}

impl ResolvedAddress {
    /// The owner's address type names this kind of address: a note found
    /// through a filesystem address is a `filesystem` note, one found through
    /// a shard address a `shard` note; a facet found through a shard address
    /// is a `shard` facet, one found through an in-note address an `in_note` facet.
    pub open spec fn type_agrees_with(self, owner: AddressOwner) -> bool {
        match (self, owner) {
            (ResolvedAddress::FsAddr(_), AddressOwner::Note(n)) => n.address_type@
                == "filesystem"@,
            (ResolvedAddress::ShardAddr(_), AddressOwner::Note(n)) => n.address_type@ == "shard"@,
            (ResolvedAddress::ShardAddr(_), AddressOwner::Facet(f)) => f.facet_address_type@
                == "shard"@,
            (ResolvedAddress::InNoteAddr(_), AddressOwner::Facet(f)) => f.facet_address_type@
                == "in_note"@,
            _ => true,
        }
    }
}

/// An address's owner leads back to that address: when an address row
/// gives a query, the row that query finds is named by an address query
/// that finds the first address again (the owner's address type agreeing
/// with the kind of the address).
pub proof fn lemma_owner_leads_back(addr: ResolvedAddress, q: OwnerQuery, owner: AddressOwner)
    requires
        addr.owner_query_matches(Ok(q)),
        q.finds_owner(owner),
        addr.type_agrees_with(owner),
    ensures
        owner.address_lookup() matches Some(back) && back.finds_address(addr),
{
    reveal_strlit("unset_file");
    reveal_strlit("raw_file");
    reveal_strlit("note");
    reveal_strlit("symlink");
    reveal_strlit("facet");
    reveal_strlit("filesystem");
    reveal_strlit("shard");
    reveal_strlit("in_note");
    assert("unset_file"@.len() == 10 && "raw_file"@.len() == 8 && "note"@.len() == 4);
    assert("symlink"@.len() == 7 && "facet"@.len() == 5 && "shard"@.len() == 5);
    assert("facet"@[0] == 'f' && "shard"@[0] == 's');
    assert("unset_file"@[0] == 'u' && "filesystem"@[0] == 'f');
    assert("symlink"@[0] == 's' && "in_note"@[0] == 'i');
}

/// Every file address row the store admits leads to an owner query: its
/// kind is one the owner lookup knows.
pub proof fn lemma_admitted_file_address_has_owner_query(addr: FsAddressRow)
    requires
        addr.admitted(),
    ensures
        forall|r: Result<OwnerQuery, AddressError>|
            #[trigger] ResolvedAddress::FsAddr(addr).owner_query_matches(r) ==> r is Ok,
{
}

/// The store admits shard address rows only of the kinds `Facet` and
/// `Note`, and the owner lookup knows the kinds `facet` and `note`: every
/// admitted shard address is reported as of an unknown kind.
pub proof fn lemma_admitted_shard_address_kind_unknown(addr: ShardAddressRow)
    requires
        addr.admitted(),
    ensures
        forall|r: Result<OwnerQuery, AddressError>|
            #[trigger] ResolvedAddress::ShardAddr(addr).owner_query_matches(r) ==> (r matches Err(
                AddressError::UnknownAddressFor(kind),
            ) && kind@ == addr.address_for@),
{
    reveal_strlit("Facet");
    reveal_strlit("Note");
    reveal_strlit("facet");
    reveal_strlit("note");
    assert("Facet"@[0] != "facet"@[0] && "Note"@[0] != "note"@[0]);
    assert("Facet"@.len() != "note"@.len() && "Note"@.len() != "facet"@.len());
}

/// The characters the path tests allow: inside a shard path every
/// alphanumeric character (what `char::is_alphanumeric` answers), `.` and
/// `:`; before the `>` of a `$`-opened shard text every alphanumeric
/// character and `.`; in a raw id the ASCII letters and digits and `-`.
pub proof fn lemma_path_characters(c: char)
    ensures
        is_shard_char(c) <==> (unicode_alphanumeric(c) || c == '.' || c == ':'),
        is_dollar_shard_char(c) <==> (unicode_alphanumeric(c) || c == '.'),
        is_raw_id_char(c) <==> (is_ascii_alnum(c) || c == '-'),
{
}

/// The shard test accepts exactly the texts opened with `<` or closed with
/// `>` whose characters between the first and the last byte are each
/// alphanumeric, `.` or `:`.
pub proof fn lemma_shard_test_accepts(b: Seq<u8>)
    ensures
        is_shard_path_bytes(b) <==> (is_shard_marked(b) && forall|i: int|
            0 <= i < chars_of(b, 1, b.len() - 1).len() ==> (unicode_alphanumeric(
                #[trigger] chars_of(b, 1, b.len() - 1)[i],
            ) || chars_of(b, 1, b.len() - 1)[i] == '.' || chars_of(b, 1, b.len() - 1)[i] == ':')),
{
    let x = chars_of(b, 1, b.len() - 1);
    if is_shard_path_bytes(b) {
        assert forall|i: int| 0 <= i < x.len() implies (unicode_alphanumeric(#[trigger] x[i])
            || x[i] == '.' || x[i] == ':') by {
            assert(is_shard_char(x[i]));
        }
    }
    if is_shard_marked(b) && forall|i: int|
        0 <= i < x.len() ==> (unicode_alphanumeric(#[trigger] x[i]) || x[i] == '.' || x[i] == ':') {
        assert forall|i: int| 0 <= i < x.len() implies #[trigger] is_shard_char(x[i]) by {
            assert(unicode_alphanumeric(x[i]) || x[i] == '.' || x[i] == ':');
        }
    }
}

/// An address row leads to the owner it names: a `raw_file` address to its
/// node with the file's bytes exactly as stored (no bytes when none are);
/// an `unset_file` address to its node; a `note` address to its note when
/// it names one; a `symlink` address to its node and the link text it
/// holds, parsed; a shard address of kind `facet` or `note` to the facet or
/// note it names; an in-note address to its facet.
pub proof fn lemma_owner_query_follows_row(addr: ResolvedAddress, r: Result<OwnerQuery, AddressError>)
    requires
        addr.owner_query_matches(r),
    ensures
        addr matches ResolvedAddress::FsAddr(a) ==> {
            &&& a.address_for@ == "raw_file"@ ==> {
                &&& r matches Ok(OwnerQuery::RawFile { node_key, data })
                &&& node_key == a.node_key
                &&& (a.raw_file_data matches Some(d) ==> data@ == d@)
                &&& (a.raw_file_data is None ==> data@.len() == 0)
            }
            &&& a.address_for@ == "unset_file"@ ==> (r matches Ok(OwnerQuery::UnsetFile { node_key })
                && node_key == a.node_key)
            &&& (a.address_for@ == "note"@ && a.note_key is Some) ==> (r matches Ok(
                OwnerQuery::Note { note_key },
            ) && note_key == a.note_key->0)
            &&& (a.address_for@ == "symlink"@ && a.symlink_path is Some && parse_spec(
                a.symlink_path->0,
            ) is Some) ==> (r matches Ok(OwnerQuery::Symlink { node_key, target }) && node_key
                == a.node_key && target.text() == a.symlink_path->0@)
        },
        addr matches ResolvedAddress::ShardAddr(a) ==> {
            &&& (a.address_for@ == "facet"@ && a.facet_key is Some) ==> (r matches Ok(
                OwnerQuery::Facet { facet_key },
            ) && facet_key == a.facet_key->0)
            &&& (a.address_for@ == "note"@ && a.note_key is Some) ==> (r matches Ok(
                OwnerQuery::Note { note_key },
            ) && note_key == a.note_key->0)
        },
        addr matches ResolvedAddress::InNoteAddr(a) ==> (r matches Ok(
            OwnerQuery::Facet { facet_key },
        ) && facet_key == a.facet_key),
{
    reveal_strlit("unset_file");
    reveal_strlit("raw_file");
    reveal_strlit("note");
    reveal_strlit("symlink");
    reveal_strlit("facet");
    assert("unset_file"@.len() == 10 && "raw_file"@.len() == 8 && "note"@.len() == 4);
    assert("symlink"@.len() == 7 && "facet"@.len() == 5);
    if let ResolvedAddress::FsAddr(a) = addr {
        if let Some(p) = a.symlink_path {
            lemma_parse_keeps_text(p);
        }
    }
}

/// A raw path resolves by its id: the key of a text that passes the raw
/// test is its 36 id characters, each an ASCII letter or digit or `-`,
/// without the `$(` before or the `)` after.
pub proof fn lemma_raw_key_is_the_id(b: Seq<u8>)
    requires
        is_raw_path_bytes(b),
    ensures
        raw_path_key(b) == chars_of(b, 2, 38),
        forall|i: int|
            0 <= i < raw_path_key(b).len() ==> is_ascii_alnum(#[trigger] raw_path_key(b)[i])
                || raw_path_key(b)[i] == '-',
{
    assert forall|i: int| 0 <= i < raw_path_key(b).len() implies is_ascii_alnum(
        #[trigger] raw_path_key(b)[i],
    ) || raw_path_key(b)[i] == '-' by {
        assert(is_raw_id_char(chars_of(b, 2, 38)[i]));
    }
}

} // verus!
