use bismuth_server::db::entity::{FsAddressRow, FsNodeRow, ShardRow, Timestamp};
use bismuth_server::fs::bismuth_fs::{changed_permissions, node_permissions};
use bismuth_server::fs::request::mknode::{new_node, new_node_address, saved_node_key};
use bismuth_server::fs::request::readlink::readlink_target;
use bismuth_server::fs::request::rmnode::{removal_allowed, removal_follow_up, RemovalFollowUp};
use bismuth_server::fs::request::setattr::apply_attr_patch;
use bismuth_server::fs::request::util::{
    fs_node_to_attr, generation_bump, generation_inserted, generation_lookup, generation_saved,
    node_attr_with_address, trash_shard_name_text, trash_shard_step, AttrPatch, FsFiletype,
    GenerationBump, GenerationStep, TimeOrNow, TrashShardStep, DIR_SIZE,
};
use bismuth_server::fs::request::{found_node, DBFSErr, Errno};

fn ts(secs: i64) -> Timestamp {
    Timestamp { secs, nanos: 0 }
}

fn node() -> FsNodeRow {
    FsNodeRow {
        key: 12,
        id: "id".to_string(),
        name: "file".to_string(),
        size: None,
        creation_time: ts(100),
        last_acess: None,
        last_modf: Some(ts(200)),
        last_node_change: None,
        permission_flags: 0o644,
        hard_link_amount: 1,
        user_id: 1000,
        group_id: 100,
        bsd_flags: 0,
        parent_node_key: Some(1),
    }
}

fn addr(kind: &str) -> FsAddressRow {
    FsAddressRow { node_key: 12, address_for: kind.to_string(), raw_file_data: None, note_key: None, symlink_path: None }
}

fn empty_patch() -> AttrPatch {
    AttrPatch {
        perm: None,
        uid: None,
        gid: None,
        size: None,
        atime: None,
        mtime: None,
        ctime: None,
        fh: None,
        crtime: None,
        chgtime: None,
        bkuptime: None,
        flags: None,
    }
}

#[test]
fn found_node_maps_failures() {
    assert!(matches!(found_node::<String>(Err("db".to_string())), Err(DBFSErr(Errno::EIO, Some(e))) if e == "db"));
    assert!(matches!(found_node::<String>(Ok(None)), Err(DBFSErr(Errno::ENOENT, None))));
    assert_eq!(found_node::<String>(Ok(Some(node()))).unwrap().key, 12);
}

#[test]
fn filetype_from_address_kind() {
    assert_eq!(FsFiletype::parse(None), Ok(FsFiletype::Dir));
    assert_eq!(FsFiletype::parse(Some("raw_file")), Ok(FsFiletype::RawFile));
    assert_eq!(FsFiletype::parse(Some("note")), Ok(FsFiletype::NoteFile));
    assert_eq!(FsFiletype::parse(Some("symlink")), Ok(FsFiletype::Symlink));
    assert_eq!(FsFiletype::parse(Some("unset_file")), Err(()));
}

#[test]
fn directory_attributes() {
    let a = fs_node_to_attr::<()>(&node(), None).unwrap();
    assert_eq!(a.kind, FsFiletype::Dir);
    assert_eq!(a.size, DIR_SIZE);
    assert_eq!(a.size, 4096);
    assert_eq!(a.ino, 12);
    assert_eq!(a.atime, ts(0));
    assert_eq!(a.mtime, ts(200));
    assert_eq!(a.crtime, ts(100));
    assert_eq!(a.perm, 0o644);
    assert_eq!(a.nlink, 1);
    assert_eq!(a.uid, 1000);
    assert_eq!(a.gid, 100);
    assert_eq!(a.rdev, 0);
    assert_eq!(a.blksize, 4096);
}

#[test]
fn file_attributes_cut_numbers_to_width() {
    let mut n = node();
    n.size = Some(10);
    n.key = -1;
    n.permission_flags = 0x1_0007;
    let a = fs_node_to_attr::<()>(&n, Some(addr("raw_file"))).unwrap();
    assert_eq!(a.kind, FsFiletype::RawFile);
    assert_eq!(a.size, 10);
    assert_eq!(a.ino, u64::MAX);
    assert_eq!(a.perm, 7);
}

#[test]
fn unknown_or_unset_kind_is_io_error() {
    assert!(matches!(fs_node_to_attr::<()>(&node(), Some(addr("unset_file"))), Err(DBFSErr(Errno::EIO, None))));
    assert!(matches!(fs_node_to_attr::<()>(&node(), Some(addr("x"))), Err(DBFSErr(Errno::EIO, None))));
}

#[test]
fn attributes_after_address_lookup() {
    assert!(matches!(node_attr_with_address::<i32>(&node(), Err(5)), Err(DBFSErr(Errno::EIO, Some(5)))));
    assert_eq!(node_attr_with_address::<i32>(&node(), Ok(Some(addr("note")))).unwrap().kind, FsFiletype::NoteFile);
}

#[test]
fn readlink_gives_link_text_bytes() {
    let mut a = addr("symlink");
    a.symlink_path = Some("[a/é]".to_string());
    assert_eq!(readlink_target::<()>(Ok(Some(a))).unwrap(), "[a/é]".as_bytes().to_vec());
    assert!(matches!(readlink_target::<()>(Ok(Some(addr("raw_file")))), Err(DBFSErr(Errno::ENOENT, None))));
    assert!(matches!(readlink_target::<()>(Ok(None)), Err(DBFSErr(Errno::ENOENT, None))));
    assert!(matches!(readlink_target::<u8>(Err(1)), Err(DBFSErr(Errno::EIO, Some(1)))));
}

#[test]
fn removal_checks_kind() {
    assert!(matches!(removal_allowed::<()>(true, &None), Ok(())));
    assert!(matches!(removal_allowed::<()>(true, &Some(addr("raw_file"))), Err(DBFSErr(Errno::EPERM, None))));
    assert!(matches!(removal_allowed::<()>(false, &None), Err(DBFSErr(Errno::EPERM, None))));
    assert!(matches!(removal_allowed::<()>(false, &Some(addr("raw_file"))), Ok(())));
}

#[test]
fn removal_of_note_file_leaves_note() {
    assert_eq!(removal_follow_up(&Some(addr("note"))), RemovalFollowUp::NoteContent);
    assert_eq!(removal_follow_up(&Some(addr("raw_file"))), RemovalFollowUp::Done);
    assert_eq!(removal_follow_up(&None), RemovalFollowUp::Done);
}

#[test]
fn attribute_patch_replaces_set_fields() {
    let mut p = empty_patch();
    p.size = Some(77);
    p.ctime = Some(ts(5));
    p.atime = Some(TimeOrNow::Now);
    p.mtime = Some(TimeOrNow::SpecificTime(ts(9)));
    p.perm = Some(0o600);
    p.uid = Some(1);
    p.gid = Some(2);
    p.flags = Some(3);
    p.crtime = Some(ts(1234));
    let n = apply_attr_patch(node(), &p, ts(42));
    assert_eq!(n.size, Some(77));
    assert_eq!(n.creation_time, ts(5));
    assert_eq!(n.last_node_change, Some(ts(5)));
    assert_eq!(n.last_acess, Some(ts(42)));
    assert_eq!(n.last_modf, Some(ts(9)));
    assert_eq!(n.permission_flags, 0o600);
    assert_eq!((n.user_id, n.group_id, n.bsd_flags), (1, 2, 3));
    assert_eq!(n.name, "file");
}

#[test]
fn empty_patch_keeps_node() {
    let n = apply_attr_patch(node(), &empty_patch(), ts(42));
    assert_eq!(n.size, None);
    assert_eq!(n.creation_time, ts(100));
    assert_eq!(n.last_acess, None);
    assert_eq!(n.last_modf, Some(ts(200)));
    assert_eq!(n.permission_flags, 0o644);
}

#[test]
fn patch_size_wraps_into_stored_integer() {
    let mut p = empty_patch();
    p.size = Some(u64::MAX);
    assert_eq!(apply_attr_patch(node(), &p, ts(0)).size, Some(-1));
}

#[test]
fn new_node_and_its_address() {
    let d = new_node(3, "x".to_string(), 1000, 100, 0o644);
    assert_eq!(d.name, "x");
    assert_eq!(d.parent_node_key, Some(3));
    assert_eq!((d.user_id, d.group_id, d.permission_flags), (1000, 100, 0o644));
    assert!(new_node_address(5, true).is_none());
    let a = new_node_address(5, false).unwrap();
    assert_eq!(a.node_key, 5);
    assert_eq!(a.address_for, "unset_file");
    assert!(matches!(saved_node_key::<()>(Some(9)), Ok(9)));
    assert!(matches!(saved_node_key::<()>(None), Err(DBFSErr(Errno::EIO, None))));
}

#[test]
fn new_file_does_not_read_back() {
    let a = new_node_address(12, false).unwrap();
    let row = FsAddressRow { node_key: a.node_key, address_for: a.address_for, raw_file_data: None, note_key: None, symlink_path: None };
    assert!(matches!(fs_node_to_attr::<()>(&node(), Some(row)), Err(DBFSErr(Errno::EIO, None))));
    assert_eq!(fs_node_to_attr::<()>(&node(), None).unwrap().kind, FsFiletype::Dir);
}

#[test]
fn generations() {
    assert!(matches!(generation_lookup::<()>(Ok(Some(4))), GenerationStep::Known(4)));
    assert!(matches!(generation_lookup::<()>(Ok(None)), GenerationStep::Insert));
    assert!(matches!(generation_lookup::<u8>(Err(2)), GenerationStep::Failed(DBFSErr(Errno::EIO, Some(2)))));
    assert!(matches!(generation_inserted::<()>(Ok(0)), Ok(0)));
    assert!(matches!(generation_bump::<()>(Ok(Some(4))), GenerationBump::Save(5)));
    assert!(matches!(generation_bump::<()>(Ok(None)), GenerationBump::Insert));
    assert!(matches!(generation_saved::<()>(Ok(Some(5))), Ok(5)));
    assert!(matches!(generation_saved::<()>(Ok(None)), Err(DBFSErr(Errno::EIO, None))));
}

#[test]
fn trash_shard() {
    assert_eq!(trash_shard_name_text(), "Trash");
    match trash_shard_step::<()>(Ok(None)) {
        TrashShardStep::Create(name) => assert_eq!(name, "Trash"),
        other => panic!("unexpected {:?}", other),
    }
    let s = ShardRow { key: 1, name: "Trash".to_string(), parent_shard_key: None };
    assert!(matches!(trash_shard_step::<()>(Ok(Some(s))), TrashShardStep::Found(ShardRow { key: 1, .. })));
    assert!(matches!(trash_shard_step::<u8>(Err(3)), TrashShardStep::Failed(3)));
}

#[test]
fn mode_decisions() {
    assert_eq!(node_permissions(0o100644, 0o022), Ok(0o100644));
    assert_eq!(node_permissions(0o100666, 0o022), Ok(0o100644));
    assert_eq!(node_permissions(0o040755, 0o022), Err(Errno::EINVAL));
    assert_eq!(node_permissions(0o755, 0), Err(Errno::EINVAL));
    assert_eq!(changed_permissions(Some(0o104755)), Some(0o4755));
    assert_eq!(changed_permissions(None), None);
}

#[test]
fn generation_reads_back_what_was_given_out() {
    let stored: i64 = 41;
    let next = match generation_bump::<()>(Ok(Some(stored))) {
        GenerationBump::Save(n) => n,
        _ => panic!("expected a save"),
    };
    let answered = generation_saved::<()>(Ok(Some(next))).unwrap();
    assert_eq!(answered, 42);
    assert!(matches!(generation_lookup::<()>(Ok(Some(next))), GenerationStep::Known(g) if g == answered));
    let inserted = generation_inserted::<()>(Ok(0)).unwrap();
    assert!(matches!(generation_lookup::<()>(Ok(Some(0))), GenerationStep::Known(g) if g == inserted));
}
