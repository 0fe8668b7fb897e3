use bismuth_server::db::entity::{
    FacetRow, FsAddressRow, FsNodeRow, InNoteAddressRow, NoteRow, ShardAddressRow, Timestamp,
};
use bismuth_server::fs::address::address_owner::{in_note_owner_key, AddressOwner, AddressQuery, NoteOrFacet};
use bismuth_server::fs::address::address_path::AddressPath;
use bismuth_server::fs::address::resolved_address::{OwnerQuery, ResolvedAddress};
use bismuth_server::fs::address::AddressError;

fn fs_addr(kind: &str) -> FsAddressRow {
    FsAddressRow {
        node_key: 7,
        address_for: kind.to_string(),
        raw_file_data: None,
        note_key: None,
        symlink_path: None,
    }
}

fn shard_addr(kind: &str, facet_key: Option<i64>, note_key: Option<i64>) -> ShardAddressRow {
    ShardAddressRow { shard_key: Some(1), name: "x".to_string(), address_for: kind.to_string(), facet_key, note_key }
}

fn node(key: i64) -> FsNodeRow {
    FsNodeRow {
        key,
        id: "id".to_string(),
        name: "n".to_string(),
        size: None,
        creation_time: Timestamp { secs: 0, nanos: 0 },
        last_acess: None,
        last_modf: None,
        last_node_change: None,
        permission_flags: 0o644,
        hard_link_amount: 1,
        user_id: 1000,
        group_id: 1000,
        bsd_flags: 0,
        parent_node_key: None,
    }
}

fn note(key: i64, address_type: &str) -> NoteRow {
    NoteRow { key, id: "n".to_string(), content: String::new(), address_type: address_type.to_string() }
}

fn facet(key: i64, address_type: &str) -> FacetRow {
    FacetRow { key, id: "f".to_string(), header_field_name: "h".to_string(), facet_address_type: address_type.to_string() }
}

#[test]
fn owner_of_unset_file_address() {
    let r = ResolvedAddress::FsAddr(fs_addr("unset_file")).owner_query();
    assert!(matches!(r, Ok(OwnerQuery::UnsetFile { node_key: 7 })));
}

#[test]
fn owner_of_raw_file_address_carries_its_bytes() {
    let r = ResolvedAddress::FsAddr(fs_addr("raw_file")).owner_query();
    match r {
        Ok(OwnerQuery::RawFile { node_key, data }) => {
            assert_eq!(node_key, 7);
            assert!(data.is_empty());
        }
        other => panic!("unexpected {:?}", other),
    }
    let mut a = fs_addr("raw_file");
    a.raw_file_data = Some(vec![1, 2, 3]);
    match ResolvedAddress::FsAddr(a).owner_query() {
        Ok(OwnerQuery::RawFile { data, .. }) => assert_eq!(data, vec![1, 2, 3]),
        other => panic!("unexpected {:?}", other),
    }
}

#[test]
fn owner_of_note_address() {
    assert!(matches!(ResolvedAddress::FsAddr(fs_addr("note")).owner_query(), Ok(OwnerQuery::Nothing)));
    let mut a = fs_addr("note");
    a.note_key = Some(3);
    assert!(matches!(ResolvedAddress::FsAddr(a).owner_query(), Ok(OwnerQuery::Note { note_key: 3 })));
}

#[test]
fn owner_of_symlink_address_parses_the_target() {
    let mut a = fs_addr("symlink");
    a.symlink_path = Some("[home/x]".to_string());
    match ResolvedAddress::FsAddr(a).owner_query() {
        Ok(OwnerQuery::Symlink { node_key: 7, target: AddressPath::FsPath(t) }) => assert_eq!(t, "[home/x]"),
        other => panic!("unexpected {:?}", other),
    }
    let mut b = fs_addr("symlink");
    b.symlink_path = Some("nowhere".to_string());
    assert!(matches!(ResolvedAddress::FsAddr(b).owner_query(), Ok(OwnerQuery::Nothing)));
    assert!(matches!(ResolvedAddress::FsAddr(fs_addr("symlink")).owner_query(), Ok(OwnerQuery::Nothing)));
}

#[test]
fn owner_of_unknown_address_kind_is_an_error() {
    match ResolvedAddress::FsAddr(fs_addr("weird")).owner_query() {
        Err(AddressError::UnknownAddressFor(k)) => assert_eq!(k, "weird"),
        other => panic!("unexpected {:?}", other),
    }
    match ResolvedAddress::ShardAddr(shard_addr("file", None, None)).owner_query() {
        Err(AddressError::UnknownAddressFor(k)) => assert_eq!(k, "file"),
        other => panic!("unexpected {:?}", other),
    }
}

#[test]
fn owner_of_shard_addresses() {
    assert!(matches!(
        ResolvedAddress::ShardAddr(shard_addr("facet", Some(4), None)).owner_query(),
        Ok(OwnerQuery::Facet { facet_key: 4 })
    ));
    assert!(matches!(
        ResolvedAddress::ShardAddr(shard_addr("facet", None, Some(4))).owner_query(),
        Ok(OwnerQuery::Nothing)
    ));
    assert!(matches!(
        ResolvedAddress::ShardAddr(shard_addr("note", None, Some(5))).owner_query(),
        Ok(OwnerQuery::Note { note_key: 5 })
    ));
}

#[test]
fn owner_of_in_note_address_is_its_facet() {
    let a = InNoteAddressRow { note_key: 1, col_start: None, line_start: 2, col_width: None, lines_amount: 1, facet_key: 9 };
    assert!(matches!(ResolvedAddress::InNoteAddr(a).owner_query(), Ok(OwnerQuery::Facet { facet_key: 9 })));
}

#[test]
fn address_of_owners() {
    assert_eq!(AddressOwner::Note(note(2, "filesystem")).address_query().unwrap(), AddressQuery::FsAddressByNoteKey(2));
    assert_eq!(AddressOwner::Note(note(2, "shard")).address_query().unwrap(), AddressQuery::ShardAddressByNoteKey(2));
    assert_eq!(AddressOwner::Facet(facet(3, "in_note")).address_query().unwrap(), AddressQuery::InNoteAddressByFacetKey(3));
    assert_eq!(AddressOwner::Facet(facet(3, "shard")).address_query().unwrap(), AddressQuery::ShardAddressByFacetKey(3));
    assert_eq!(AddressOwner::UnsetFile(node(4)).address_query().unwrap(), AddressQuery::FsAddressByNodeKey(4));
    assert_eq!(AddressOwner::RawFile(node(4), vec![]).address_query().unwrap(), AddressQuery::FsAddressByNodeKey(4));
    assert_eq!(
        AddressOwner::Symlink(node(4), AddressPath::FsPath("[a]".to_string())).address_query().unwrap(),
        AddressQuery::FsAddressByNodeKey(4)
    );
}

#[test]
fn address_of_owner_with_unknown_type_is_an_error() {
    match AddressOwner::Note(note(2, "inNote")).address_query() {
        Err(AddressError::UnknownAddressFor(k)) => assert_eq!(k, "inNote"),
        other => panic!("unexpected {:?}", other),
    }
    match AddressOwner::Facet(facet(2, "filesystem")).address_query() {
        Err(AddressError::UnknownAddressFor(k)) => assert_eq!(k, "filesystem"),
        other => panic!("unexpected {:?}", other),
    }
}

#[test]
fn raw_path_row_agrees_with_owner() {
    let row = NoteOrFacet { kind: "note".to_string(), key: 5, address_type: "shard".to_string() };
    assert_eq!(row.address_query().unwrap(), AddressOwner::Note(note(5, "shard")).address_query().unwrap());
    let row = NoteOrFacet { kind: "facet".to_string(), key: 6, address_type: "in_note".to_string() };
    assert_eq!(row.address_query().unwrap(), AddressOwner::Facet(facet(6, "in_note")).address_query().unwrap());
    let row = NoteOrFacet { kind: "shard".to_string(), key: 6, address_type: "note".to_string() };
    match row.address_query() {
        Err(AddressError::UnknownAddressFor(k)) => assert_eq!(k, "note"),
        other => panic!("unexpected {:?}", other),
    }
}

#[test]
fn owner_leads_back_to_its_address() {
    let mut a = fs_addr("note");
    a.note_key = Some(3);
    let q = ResolvedAddress::FsAddr(a).owner_query().unwrap();
    let OwnerQuery::Note { note_key } = q else { panic!("unexpected {:?}", q) };
    let back = AddressOwner::Note(note(note_key, "filesystem")).address_query().unwrap();
    assert_eq!(back, AddressQuery::FsAddressByNoteKey(3));

    let q = ResolvedAddress::ShardAddr(shard_addr("facet", Some(8), None)).owner_query().unwrap();
    let OwnerQuery::Facet { facet_key } = q else { panic!("unexpected {:?}", q) };
    let back = AddressOwner::Facet(facet(facet_key, "shard")).address_query().unwrap();
    assert_eq!(back, AddressQuery::ShardAddressByFacetKey(8));
}

#[test]
fn in_note_paths_are_placed_only_in_notes() {
    assert_eq!(in_note_owner_key(&Some(AddressOwner::Note(note(7, "shard")))), Some(7));
    assert_eq!(in_note_owner_key(&Some(AddressOwner::Facet(facet(7, "shard")))), None);
    assert_eq!(in_note_owner_key(&None), None);
}

#[test]
fn capitalised_shard_kinds_are_unknown_to_the_owner_lookup() {
    match ResolvedAddress::ShardAddr(shard_addr("Facet", Some(4), None)).owner_query() {
        Err(AddressError::UnknownAddressFor(k)) => assert_eq!(k, "Facet"),
        other => panic!("unexpected {:?}", other),
    }
    match ResolvedAddress::ShardAddr(shard_addr("Note", None, Some(5))).owner_query() {
        Err(AddressError::UnknownAddressFor(k)) => assert_eq!(k, "Note"),
        other => panic!("unexpected {:?}", other),
    }
}
