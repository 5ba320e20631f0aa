//! The session table: where it is kept, and the columns that older tables lack.

use vstd::prelude::*;

use crate::failure::Failure;
use crate::flow::{fail, failing, is_run, Effect, Event, Flow};
use crate::text::{cat3, cat4};

verus! {

/// The table is kept so that readers do not wait for a writer.
pub const JOURNAL_PRAGMA: &'static str = "PRAGMA journal_mode=WAL;";

/// A process waits for another one's lock instead of failing at once.
pub const BUSY_PRAGMA: &'static str = "PRAGMA busy_timeout=5000;";

/// Where the database at `path` is opened, creating it if need be.
pub fn database_url(path: &str) -> (r: String)
    ensures
        r@ == "sqlite:"@ + path@ + "?mode=rwc"@,
{
    cat3("sqlite:", path, "?mode=rwc")
}

/// How many columns the first version of the table lacks.
pub const ADDED_COLUMNS: usize = 8;

/// The name of an added column.
pub open spec fn column_text(i: int) -> Seq<char> {
    if i == 0 {
        "backend"@
    } else if i == 1 {
        "codespace_name"@
    } else if i == 2 {
        "remote_workdir"@
    } else if i == 3 {
        "github_login"@
    } else if i == 4 {
        "cached_codespace_state"@
    } else if i == 5 {
        "cached_codespace_branch"@
    } else if i == 6 {
        "cached_zellij_state"@
    } else {
        "codespace_state_updated_at"@
    }
}

/// The name of an added column.
pub fn column_name(i: usize) -> (r: &'static str)
    ensures
        r@ == column_text(i as int),
{
    if i == 0 {
        "backend"
    } else if i == 1 {
        "codespace_name"
    } else if i == 2 {
        "remote_workdir"
    } else if i == 3 {
        "github_login"
    } else if i == 4 {
        "cached_codespace_state"
    } else if i == 5 {
        "cached_codespace_branch"
    } else if i == 6 {
        "cached_zellij_state"
    } else {
        "codespace_state_updated_at"
    }
}

/// The definition of an added column. Sessions from before there were backends are local.
pub open spec fn column_type(i: int) -> Seq<char> {
    if i == 0 {
        "TEXT NOT NULL DEFAULT 'local'"@
    } else {
        "TEXT"@
    }
}

/// The statement that adds a column.
pub fn add_column_statement(i: usize) -> (r: String)
    ensures
        r@ == "ALTER TABLE sessions ADD COLUMN "@ + column_text(i as int) + " "@ + column_type(
            i as int,
        ),
{
    let definition = if i == 0 {
        "TEXT NOT NULL DEFAULT 'local'"
    } else {
        "TEXT"
    };
    cat4("ALTER TABLE sessions ADD COLUMN ", column_name(i), " ", definition)
}

/// Adding the columns that the table lacks, one after the other. A column that cannot be added
/// because another process has just added it counts as added.
#[derive(Debug)]
pub enum MigrateFlow {
    Look { at: usize },
    Add { at: usize },
    Check { at: usize, cause: Failure },
    Over,
}

/// How it begins.
pub open spec fn ensure_session_columns_begin() -> (MigrateFlow, Effect) {
    (MigrateFlow::Look { at: 0 }, Effect::SessionColumns)
}

/// Add the columns that the table lacks.
pub fn ensure_session_columns() -> (r: (MigrateFlow, Effect))
    ensures
        r == ensure_session_columns_begin(),
{
    (MigrateFlow::Look { at: 0 }, Effect::SessionColumns)
}

/// What comes after a column is there: the next column, or the end.
pub open spec fn advanced(at: usize) -> (MigrateFlow, Effect) {
    if at < ADDED_COLUMNS - 1 {
        (MigrateFlow::Look { at: (at + 1) as usize }, Effect::SessionColumns)
    } else {
        (MigrateFlow::Over, Effect::Finish(Event::Done))
    }
}

fn advance(at: usize) -> (r: (MigrateFlow, Effect))
    ensures
        r == advanced(at),
{
    if at < ADDED_COLUMNS - 1 {
        (MigrateFlow::Look { at: at + 1 }, Effect::SessionColumns)
    } else {
        (MigrateFlow::Over, Effect::Finish(Event::Done))
    }
}

impl MigrateFlow {
    /// What comes after `event`.
    pub open spec fn step(self, event: Event) -> (MigrateFlow, Effect) {
        match (self, event) {
            (MigrateFlow::Look { at }, Event::Columns(columns)) => {
                if columns@.contains(column_text(at as int)) {
                    advanced(at)
                } else {
                    (MigrateFlow::Add { at }, Effect::AddColumn { column: at })
                }
            },
            (MigrateFlow::Add { at }, Event::Done) => advanced(at),
            (MigrateFlow::Add { at }, Event::Failed(f)) => (
                MigrateFlow::Check { at, cause: f },
                Effect::SessionColumns,
            ),
            (MigrateFlow::Check { at, cause }, Event::Columns(columns)) => {
                if columns@.contains(column_text(at as int)) {
                    advanced(at)
                } else {
                    (
                        MigrateFlow::Over,
                        fail(Failure::AddColumn { column: at, cause: Box::new(cause) }),
                    )
                }
            },
            (_, Event::Failed(f)) => (MigrateFlow::Over, fail(f)),
            _ => (MigrateFlow::Over, fail(Failure::UnexpectedReply)),
        }
    }
}

impl Flow for MigrateFlow {
    open spec fn leads_to(self, event: Event, next: Self, effect: Effect) -> bool {
        (next, effect) == self.step(event)
    }

    fn next(self, event: Event) -> (r: (Self, Effect)) {
        match (self, event) {
            (MigrateFlow::Look { at }, Event::Columns(columns)) => {
                if columns.contains(column_name(at)) {
                    advance(at)
                } else {
                    (MigrateFlow::Add { at }, Effect::AddColumn { column: at })
                }
            },
            (MigrateFlow::Add { at }, Event::Done) => advance(at),
            (MigrateFlow::Add { at }, Event::Failed(f)) => (
                MigrateFlow::Check { at, cause: f },
                Effect::SessionColumns,
            ),
            (MigrateFlow::Check { at, cause }, Event::Columns(columns)) => {
                if columns.contains(column_name(at)) {
                    advance(at)
                } else {
                    (
                        MigrateFlow::Over,
                        failing(Failure::AddColumn { column: at, cause: Box::new(cause) }),
                    )
                }
            },
            (_, Event::Failed(f)) => (MigrateFlow::Over, failing(f)),
            _ => (MigrateFlow::Over, failing(Failure::UnexpectedReply)),
        }
    }
}

/// The answer in place `j` shows that a column is there: it is listed, or it was added.
pub open spec fn shows_column(effects: Seq<Effect>, events: Seq<Event>, j: int, i: int) -> bool {
    ||| effects[j] == Effect::SessionColumns && (events[j] matches Event::Columns(columns)
        && columns@.contains(column_text(i)))
    ||| effects[j] == (Effect::AddColumn { column: i as usize }) && events[j] == Event::Done
}

/// Some answer before place `k` shows that a column is there.
pub open spec fn column_shown(effects: Seq<Effect>, events: Seq<Event>, k: int, i: int) -> bool {
    exists|j: int| 0 <= j < k && #[trigger] shows_column(effects, events, j, i)
}

spec fn done_columns(state: MigrateFlow, effect: Effect) -> int {
    match state {
        MigrateFlow::Look { at } => at as int,
        MigrateFlow::Add { at } => at as int,
        MigrateFlow::Check { at, .. } => at as int,
        MigrateFlow::Over => if effect == Effect::Finish(Event::Done) {
            ADDED_COLUMNS as int
        } else {
            0
        },
    }
}

proof fn columns_are_there_up_to(
    states: Seq<MigrateFlow>,
    effects: Seq<Effect>,
    events: Seq<Event>,
    k: int,
)
    requires
        is_run(states, effects, events),
        (states[0], effects[0]) == ensure_session_columns_begin(),
        0 <= k < effects.len(),
    ensures
        match states[k] {
            MigrateFlow::Look { at } => at < ADDED_COLUMNS && effects[k] == Effect::SessionColumns,
            MigrateFlow::Add { at } => at < ADDED_COLUMNS && effects[k] == (Effect::AddColumn {
                column: at,
            }),
            MigrateFlow::Check { at, .. } => at < ADDED_COLUMNS && effects[k] == Effect::SessionColumns,
            MigrateFlow::Over => effects[k] is Finish,
        },
        forall|i: int|
            0 <= i < done_columns(states[k], effects[k]) ==> #[trigger] column_shown(
                effects,
                events,
                k,
                i,
            ),
    decreases k,
{
    if k > 0 {
        columns_are_there_up_to(states, effects, events, k - 1);
        assert(states[k - 1].leads_to(events[k - 1], states[k], effects[k]));
        let at = done_columns(states[k - 1], effects[k - 1]);
        assert forall|i: int| 0 <= i < done_columns(states[k], effects[k]) implies #[trigger]
            column_shown(effects, events, k, i) by {
            if i < at {
                assert(column_shown(effects, events, k - 1, i));
                let j = choose|j: int|
                    0 <= j < k - 1 && #[trigger] shows_column(effects, events, j, i);
                assert(shows_column(effects, events, j, i));
            } else {
                assert(shows_column(effects, events, k - 1, i));
            }
        }
    }
}

/// A migration that ends well has seen every column or added it.
pub proof fn migration_leaves_no_column_out(
    states: Seq<MigrateFlow>,
    effects: Seq<Effect>,
    events: Seq<Event>,
    k: int,
    i: int,
)
    requires
        is_run(states, effects, events),
        (states[0], effects[0]) == ensure_session_columns_begin(),
        0 <= k < effects.len(),
        effects[k] == Effect::Finish(Event::Done),
        0 <= i < ADDED_COLUMNS,
    ensures
        column_shown(effects, events, k, i),
{
    columns_are_there_up_to(states, effects, events, k);
    if states[k] !is Over {
        assert(effects[k] is Finish);
    }
}

} // verus!
