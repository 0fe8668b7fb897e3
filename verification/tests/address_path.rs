use bismuth_server::fs::address::address_path::{in_note_position_numbers, AddressPath, ResolvePlan};
use bismuth_server::fs::address::AddressError;

const ID: &str = "0123456789abcdefABCDEF-0123456789abc";

fn raw(id: &str) -> String {
    format!("$({})", id)
}

fn kind(p: &Option<AddressPath>) -> &'static str {
    match p {
        None => "none",
        Some(AddressPath::RawPath(_)) => "raw",
        Some(AddressPath::ShardPath(_)) => "shard",
        Some(AddressPath::FsPath(_)) => "fs",
        Some(AddressPath::InNotePath(_)) => "in_note",
    }
}

#[test]
fn raw_path_accepts_thirty_six_id_characters() {
    assert_eq!(ID.len(), 36);
    assert!(AddressPath::is_raw_path(&raw(ID)));
}

#[test]
fn raw_path_rejects_wrong_length_or_characters() {
    assert!(!AddressPath::is_raw_path(&raw(&ID[1..])));
    assert!(!AddressPath::is_raw_path(&raw(&ID.replace('-', "_"))));
    assert!(!AddressPath::is_raw_path(&format!("$[{}]", ID)));
    assert!(!AddressPath::is_raw_path(&raw(&ID.replace("abc", "é"))));
    assert!(!AddressPath::is_raw_path(""));
}

#[test]
fn shard_path_accepts_alphanumeric_dots_and_colons() {
    assert!(AddressPath::is_shard_path("<notes.work:todo>"));
    assert!(AddressPath::is_shard_path("<über.straße:x>"));
    assert!(AddressPath::is_shard_path("<>"));
    assert!(!AddressPath::is_shard_path("<a b>"));
    assert!(!AddressPath::is_shard_path("abc"));
}

#[test]
fn shard_path_only_needs_one_of_its_brackets() {
    // The first and the last byte are cut off whatever they are.
    assert!(AddressPath::is_shard_path("<abc"));
    assert!(AddressPath::is_shard_path("xab>"));
}

#[test]
fn fs_path_is_bracketed() {
    assert!(AddressPath::is_fs_path("[a/b]"));
    assert!(AddressPath::is_fs_path("[]"));
    assert!(!AddressPath::is_fs_path("[a/b"));
    assert!(!AddressPath::is_fs_path("a/b]"));
    assert!(!AddressPath::is_fs_path(""));
}

#[test]
fn in_note_path_with_open_end() {
    assert!(AddressPath::is_in_note_path("<a.b:c>(12;~x"));
    assert!(AddressPath::is_in_note_path("<a:b>(1 ; 22x"));
}

#[test]
fn in_note_path_rejects_closing_parenthesis() {
    assert!(!AddressPath::is_in_note_path("<a.b:c>(12;~)"));
}

#[test]
fn in_note_path_rejects_filesystem_address() {
    assert!(!AddressPath::is_in_note_path("[a/b](1;2x"));
}

#[test]
fn in_note_path_rejects_bad_positions() {
    assert!(!AddressPath::is_in_note_path("<a:b>(;2x"));
    assert!(!AddressPath::is_in_note_path("<a:b>(1;x"));
    assert!(!AddressPath::is_in_note_path("<a:b>(1;x"));
    assert!(!AddressPath::is_in_note_path("<a:b>(12x"));
    assert!(!AddressPath::is_in_note_path("<a:b>12;3x"));
    assert!(!AddressPath::is_in_note_path("(a:b>(1;2x"));
}

#[test]
fn parse_sorts_paths_by_kind() {
    assert_eq!(kind(&AddressPath::parse(raw(ID))), "raw");
    assert_eq!(kind(&AddressPath::parse("<notes.work:todo>".to_string())), "shard");
    assert_eq!(kind(&AddressPath::parse("[home/notes]".to_string())), "fs");
    assert_eq!(kind(&AddressPath::parse("hello".to_string())), "none");
    assert_eq!(kind(&AddressPath::parse(String::new())), "none");
    assert_eq!(kind(&AddressPath::parse("<a b>".to_string())), "none");
}

#[test]
fn parse_keeps_the_text() {
    match AddressPath::parse("<notes.work:todo>".to_string()) {
        Some(AddressPath::ShardPath(s)) => assert_eq!(s, "<notes.work:todo>"),
        other => panic!("unexpected {:?}", other),
    }
}

#[test]
fn parse_never_gives_in_note_paths() {
    assert_eq!(kind(&AddressPath::parse("<a.b:c>(12;~)".to_string())), "none");
    assert_eq!(kind(&AddressPath::parse("[a/b](1;2)".to_string())), "none");
    assert_eq!(kind(&AddressPath::parse("[a/b](1;2x".to_string())), "none");
    // A '<' text that passes the in-note test holds a '>' and a '(', so it is no shard path either.
    assert_eq!(kind(&AddressPath::parse("<a:c>(12;~x".to_string())), "none");
    assert_eq!(kind(&AddressPath::parse("<ac>(12;4x".to_string())), "none");
}

#[test]
fn quick_address_test() {
    assert!(AddressPath::is_address_path(&format!("${}", ID)));
    assert!(!AddressPath::is_address_path(&format!("${}x", ID)));
    assert!(!AddressPath::is_address_path("<a.b:c>"));
    assert!(AddressPath::is_address_path("[a/b]"));
    assert!(AddressPath::is_address_path("[a](1;2)"));
    assert!(AddressPath::is_address_path("[a](;)"));
    assert!(AddressPath::is_address_path("[a](12;~)"));
    assert!(!AddressPath::is_address_path("[a](x;2)"));
    assert!(!AddressPath::is_address_path("[a]x(1;2)"));
    assert!(!AddressPath::is_address_path("[a(1;2)"));
    assert!(!AddressPath::is_address_path("abc"));
    assert!(!AddressPath::is_address_path(""));
}

#[test]
fn resolve_plan_of_raw_path() {
    match AddressPath::RawPath(raw(ID)).resolve_plan() {
        Ok(ResolvePlan::RawKey(key)) => assert_eq!(key, ID),
        other => panic!("unexpected {:?}", other),
    }
}

#[test]
fn resolve_plan_of_shard_path() {
    match AddressPath::ShardPath("<notes.work:todo>".to_string()).resolve_plan() {
        Ok(ResolvePlan::ShardWalk { segments_json, name }) => {
            assert_eq!(segments_json, "[\"notes\",\"work\"]");
            assert_eq!(name, "todo");
        }
        other => panic!("unexpected {:?}", other),
    }
}

#[test]
fn resolve_plan_of_shard_path_without_name() {
    assert!(matches!(
        AddressPath::ShardPath("<notes.work>".to_string()).resolve_plan(),
        Ok(ResolvePlan::Nothing)
    ));
}

#[test]
fn resolve_plan_of_fs_path_keeps_closing_bracket() {
    match AddressPath::FsPath("[home/notes]".to_string()).resolve_plan() {
        Ok(ResolvePlan::FsWalk { segments_json }) => {
            assert_eq!(segments_json, "[\"home\",\"notes]\"]")
        }
        other => panic!("unexpected {:?}", other),
    }
}

#[test]
fn resolve_plan_of_in_note_path() {
    match AddressPath::InNotePath("<a:b>(3; ~)".to_string()).resolve_plan() {
        Ok(ResolvePlan::InNote { address, line, column }) => {
            match address {
                AddressPath::ShardPath(s) => assert_eq!(s, "<a:b>"),
                other => panic!("unexpected {:?}", other),
            }
            assert_eq!(line, vec!['3']);
            assert_eq!(column, vec!['~']);
        }
        other => panic!("unexpected {:?}", other),
    }
    match AddressPath::InNotePath("[a/b](10;2)".to_string()).resolve_plan() {
        Ok(ResolvePlan::InNote { address: AddressPath::FsPath(s), line, column }) => {
            assert_eq!(s, "[a/b]");
            assert_eq!(line, vec!['1', '0']);
            assert_eq!(column, vec!['2']);
        }
        other => panic!("unexpected {:?}", other),
    }
}

#[test]
fn resolve_plan_of_in_note_path_without_position() {
    for text in ["<a:b>3;4)", "<a:b>(34)", "x(1;2)", "(1;2)"] {
        assert!(
            matches!(
                AddressPath::InNotePath(text.to_string()).resolve_plan(),
                Ok(ResolvePlan::Nothing)
            ),
            "{}",
            text
        );
    }
}

#[test]
fn in_note_position_numbers_read_row_and_column() {
    assert!(matches!(in_note_position_numbers(&vec!['3'], &vec!['~']), Ok((3, None))));
    assert!(matches!(in_note_position_numbers(&vec!['3'], &vec!['4', '0']), Ok((3, Some(40)))));
    assert!(matches!(in_note_position_numbers(&vec!['-', '5'], &vec!['+', '7']), Ok((-5, Some(7)))));
    assert!(matches!(
        in_note_position_numbers(&vec!['x'], &vec!['~']),
        Err(AddressError::Number(_))
    ));
    assert!(matches!(
        in_note_position_numbers(&vec!['1'], &vec![]),
        Err(AddressError::Number(_))
    ));
    let too_big: Vec<char> = "9223372036854775808".chars().collect();
    assert!(matches!(
        in_note_position_numbers(&too_big, &vec!['~']),
        Err(AddressError::Number(_))
    ));
}

#[test]
fn in_note_test_and_resolve_split_alike() {
    let text = "<a:b>(1 ; 22x";
    assert!(AddressPath::is_in_note_path(text));
    match AddressPath::InNotePath(text.to_string()).resolve_plan() {
        Ok(ResolvePlan::InNote { address: AddressPath::ShardPath(s), line, column }) => {
            assert_eq!(s, "<a:b>");
            assert_eq!(line, vec!['1']);
            assert_eq!(column, vec!['2', '2']);
        }
        other => panic!("unexpected {:?}", other),
    }
}

#[test]
fn resolve_plan_escapes_segments_as_json() {
    let text = "[a\"b/c\\d/t\tn\nx\u{1}/\u{e9}\u{7f}]".to_string();
    match AddressPath::FsPath(text).resolve_plan() {
        Ok(ResolvePlan::FsWalk { segments_json }) => {
            assert_eq!(segments_json, "[\"a\\\"b\",\"c\\\\d\",\"t\\tn\\nx\\u0001\",\"\u{e9}\u{7f}]\"]")
        }
        other => panic!("unexpected {:?}", other),
    }
    match AddressPath::ShardPath("<x\u{1f}y.:z>".to_string()).resolve_plan() {
        Ok(ResolvePlan::ShardWalk { segments_json, name }) => {
            assert_eq!(segments_json, "[\"x\\u001fy\",\"\"]");
            assert_eq!(name, "z");
        }
        other => panic!("unexpected {:?}", other),
    }
}
