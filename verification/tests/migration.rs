use bismuth_server::migration::facet_fields::facet_field_table_name;
use bismuth_server::migration::util::{down_steps, up_steps, MigrationEntry, MigrationStep};

#[test]
fn facet_field_tables_are_named_by_field() {
    assert_eq!(facet_field_table_name("text"), "text_facet_field");
    assert_eq!(facet_field_table_name("timestamp"), "timestamp_facet_field");
}

fn entries() -> Vec<MigrationEntry> {
    vec![
        MigrationEntry::Table("facets".to_string()),
        MigrationEntry::Table("shard".to_string()),
        MigrationEntry::Insert(0),
        MigrationEntry::Table("shard_address".to_string()),
    ]
}

fn describe(s: &MigrationStep) -> String {
    match s {
        MigrationStep::CreateTable(n) => format!("create {}", n),
        MigrationStep::DropTable(n) => format!("drop {}", n),
        MigrationStep::InsertRow(i) => format!("insert {}", i),
        MigrationStep::DeleteRow(i) => format!("delete {}", i),
    }
}

#[test]
fn migration_goes_forward() {
    let up: Vec<String> = up_steps(&entries()).iter().map(describe).collect();
    assert_eq!(up, vec!["create facets", "create shard", "insert 0", "create shard_address"]);
}

#[test]
fn migration_is_undone_backward() {
    let down: Vec<String> = down_steps(&entries()).iter().map(describe).collect();
    assert_eq!(down, vec!["drop shard_address", "delete 0", "drop shard", "drop facets"]);
}
