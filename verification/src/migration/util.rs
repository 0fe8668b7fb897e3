//! A compound migration: an ordered list of tables to make and rows to put
//! in; applying it goes forward through the list, undoing it backward.
use vstd::prelude::*;

verus! {

/// One entry of a compound migration.
#[derive(Debug)]
pub enum MigrationEntry {
    /// A table, by name.
    Table(String),
    /// A row to put in, by its place among the migration's rows.
    Insert(usize),
}

/// One step taken against the store.
#[derive(Debug)]
pub enum MigrationStep {
    CreateTable(String),
    DropTable(String),
    InsertRow(usize),
    DeleteRow(usize),
}

/// The step that applies an entry: make its table (if missing), or put its row in.
pub open spec fn up_step(e: MigrationEntry) -> MigrationStep {
    match e {
        MigrationEntry::Table(name) => MigrationStep::CreateTable(name),
        MigrationEntry::Insert(i) => MigrationStep::InsertRow(i),
    }
}

/// The step that undoes an entry: drop its table, or delete its row.
pub open spec fn down_step(e: MigrationEntry) -> MigrationStep {
    match e {
        MigrationEntry::Table(name) => MigrationStep::DropTable(name),
        MigrationEntry::Insert(i) => MigrationStep::DeleteRow(i),
    }
}

/// `undo` takes back what `step` did.
pub open spec fn undoes(undo: MigrationStep, step: MigrationStep) -> bool {
    match (undo, step) {
        (MigrationStep::DropTable(a), MigrationStep::CreateTable(b)) => a == b,
        (MigrationStep::DeleteRow(a), MigrationStep::InsertRow(b)) => a == b,
        _ => false,
    }
}

fn entry_step(e: &MigrationEntry, forward: bool) -> (r: MigrationStep)
    ensures
        r == if forward {
            up_step(*e)
        } else {
            down_step(*e)
        },
{
    match e {
        MigrationEntry::Table(name) => if forward {
            MigrationStep::CreateTable(name.clone())
        } else {
            MigrationStep::DropTable(name.clone())
        },
        MigrationEntry::Insert(i) => if forward {
            MigrationStep::InsertRow(*i)
        } else {
            MigrationStep::DeleteRow(*i)
        },
    }
}

/// The steps that apply a migration: each entry's step, in the order of the entries.
pub fn up_steps(entries: &Vec<MigrationEntry>) -> (r: Vec<MigrationStep>)
    ensures
        r@.len() == entries@.len(),
        forall|i: int| 0 <= i < entries@.len() ==> #[trigger] r@[i] == up_step(entries@[i]),
{
    let mut r: Vec<MigrationStep> = Vec::new();
    let mut i: usize = 0;
    while i < entries.len()
        invariant
            i <= entries@.len(),
            r@.len() == i,
            forall|j: int| 0 <= j < i ==> #[trigger] r@[j] == up_step(entries@[j]),
        decreases entries@.len() - i,
    {
        r.push(entry_step(&entries[i], true));
        i = i + 1;
    }
    r
}

/// The steps that undo a migration: each entry's undoing step, from the last
/// entry back to the first.
pub fn down_steps(entries: &Vec<MigrationEntry>) -> (r: Vec<MigrationStep>)
    ensures
        r@.len() == entries@.len(),
        forall|i: int|
            0 <= i < entries@.len() ==> #[trigger] r@[i] == down_step(
                entries@[entries@.len() - 1 - i],
            ),
{
    let mut r: Vec<MigrationStep> = Vec::new();
    let n = entries.len();
    let mut i: usize = 0;
    while i < n
        invariant
            n == entries@.len(),
            i <= n,
            r@.len() == i,
            forall|j: int| 0 <= j < i ==> #[trigger] r@[j] == down_step(entries@[n - 1 - j]),
        decreases n - i,
    {
        r.push(entry_step(&entries[n - 1 - i], false));
        i = i + 1;
    }
    r
}

/// Undoing a migration takes back its steps in reverse order: the `i`-th
/// step from the end of the forward steps is undone by the `i`-th undoing step.
pub proof fn lemma_down_undoes_up(
    entries: Seq<MigrationEntry>,
    up: Seq<MigrationStep>,
    down: Seq<MigrationStep>,
)
    requires
        up.len() == entries.len(),
        forall|i: int| 0 <= i < entries.len() ==> #[trigger] up[i] == up_step(entries[i]),
        down.len() == entries.len(),
        forall|i: int|
            0 <= i < entries.len() ==> #[trigger] down[i] == down_step(
                entries[entries.len() - 1 - i],
            ),
    ensures
        forall|i: int| 0 <= i < entries.len() ==> #[trigger] undoes(down[i], up[entries.len() - 1 - i]),
{
    assert forall|i: int| 0 <= i < entries.len() implies #[trigger] undoes(
        down[i],
        up[entries.len() - 1 - i],
    ) by {
        let j = entries.len() - 1 - i;
        assert(up[j] == up_step(entries[j]));
    }
}

} // verus!
