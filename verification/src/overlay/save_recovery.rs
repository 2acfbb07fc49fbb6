//! The save-recovery screens.
//!
//! Recovery **refuses a save that fails its checksum — there is no "continue
//! anyway"**: loading data that failed its check is exactly what a hand-editor needs,
//! and refusing it is a real if partial protection. The innocent player loses seconds,
//! not a run, because the backup is the last save that passed and autosave runs often.
//!
//! These screens print **fixed text**, never a view or a config: a save that will not
//! load is the one thing that cannot supply its own chrome. What varies is only what the
//! loader found — [`Trouble`] — plus a caret and, where there is a backup to offer, how
//! old it is.
//!
//! Two causes share a frame exactly when they share an *answer*:
//! [`NothingLeft`](Trouble::NothingLeft) and [`Unreadable`](Trouble::Unreadable) differ
//! in their first sentences and in nothing else — there is nowhere left to go in either.

use vstd::prelude::*;

use crate::format::{age, age_text};
use crate::text::{append_lines, decimal, decimal_string, owned_lines, push_spaces, repeated, views};

verus! {

/// What the loader refused, and why.
#[derive(Clone, Copy, Debug, PartialEq, Eq)]
pub enum Trouble {
    /// The save failed its checksum and there is a backup to try; `age` is how many
    /// seconds ago the backup was written, where the file says.
    BackupOffered { age: Option<u64> },
    /// The save and its backup both failed their checksums.
    NothingLeft,
    /// The save could not be read at all.
    Unreadable,
    /// The save was written by a newer build: `found` is its version, `current` the
    /// newest this build reads.
    FromTheFuture { found: u32, current: u32 },
}

/// A choice the recovery screen offers.
#[derive(Clone, Copy, Debug, PartialEq, Eq, Structural)]
pub enum RecoveryRow {
    /// Load the last save that passed its check.
    RestoreBackup,
    /// Begin again from nothing.
    NewGame,
    /// Leave without touching either file.
    Quit,
}

/// The column each row's consequence lines up in, counted after the caret gutter.
pub const HINT_COLUMN: usize = 26;

/// The choices offered for `trouble`, top to bottom: the backup only where there is one
/// to try, starting over never for a save that is merely newer than this build, and
/// quitting always.
pub open spec fn offered_rows(trouble: Trouble) -> Seq<RecoveryRow> {
    match trouble {
        Trouble::BackupOffered { .. } => seq![
            RecoveryRow::RestoreBackup,
            RecoveryRow::NewGame,
            RecoveryRow::Quit,
        ],
        Trouble::NothingLeft | Trouble::Unreadable => seq![RecoveryRow::NewGame, RecoveryRow::Quit],
        Trouble::FromTheFuture { .. } => seq![RecoveryRow::Quit],
    }
}

/// What went wrong, in the player's words.
pub open spec fn explanation_text(trouble: Trouble) -> Seq<Seq<char>> {
    match trouble {
        Trouble::BackupOffered { .. } => seq![
            " Your save does not match its checksum."@,
            Seq::<char>::empty(),
            " Either the file was edited, or a write was interrupted."@,
            " Skylode will not load it: the values inside cannot be"@,
            " trusted, and it will not guess which ones."@,
        ],
        Trouble::NothingLeft => seq![
            " Your save does not match its checksum,"@,
            " and neither does the backup."@,
            Seq::<char>::empty(),
            " Skylode will not load either of them, and has changed"@,
            " neither."@,
        ],
        Trouble::Unreadable => seq![
            " Your save could not be read at all."@,
            Seq::<char>::empty(),
            " The file is there and the system refused it: a"@,
            " permission, a disk that has gone away, a directory"@,
            " standing where a file should be."@,
        ],
        Trouble::FromTheFuture { found, current } => seq![
            " This save was written by a newer version of Skylode."@,
            Seq::<char>::empty(),
            " It is version "@ + decimal(found as nat) + "; this build reads up to "@ + decimal(
                current as nat,
            ) + "."@,
            " Skylode will not open it: a newer save can describe"@,
            " things these rules do not have."@,
        ],
    }
}

/// What each row is called.
pub open spec fn row_label(row: RecoveryRow) -> Seq<char> {
    match row {
        RecoveryRow::RestoreBackup => "Restore the backup"@,
        RecoveryRow::NewGame => "Start a new game"@,
        RecoveryRow::Quit => "Quit"@,
    }
}

/// The short consequence printed beside a row, where it has one. Starting over warns
/// rather than reassures: the new run's first autosave writes over the backup too.
pub open spec fn hint_text(row: RecoveryRow, trouble: Trouble) -> Option<Seq<char>> {
    match (row, trouble) {
        (RecoveryRow::RestoreBackup, Trouble::BackupOffered { age: Some(since) }) => Some(
            "saved "@ + age_text(since) + " ago"@,
        ),
        (RecoveryRow::NewGame, Trouble::BackupOffered { .. }) => Some("the backup goes with it"@),
        (RecoveryRow::NewGame, _) => Some("both files are written over"@),
        _ => None,
    }
}

/// The paragraph under the rows: what the player should take from all this.
pub open spec fn footnote_text(trouble: Trouble) -> Seq<Seq<char>> {
    match trouble {
        Trouble::BackupOffered { .. } => seq![
            " The backup is the last save that passed its check, so at"@,
            " most a few seconds of mining are missing."@,
        ],
        Trouble::NothingLeft => seq![
            " If you edited a save by hand, this is why. If you did not,"@,
            " the disk did — and the files are still there to look at."@,
        ],
        Trouble::Unreadable => seq![
            " The backup is no help here: both files live in the same"@,
            " directory, so whatever stopped one stops the other."@,
        ],
        Trouble::FromTheFuture { .. } => seq![
            " Update the game and it will open. Starting again is not"@,
            " offered: this save is not broken, and an older build"@,
            " would write over it."@,
        ],
    }
}

/// One choice row: the caret gutter, the label, and the consequence — where there is
/// one — starting at [`HINT_COLUMN`].
pub open spec fn row_line(row: RecoveryRow, trouble: Trouble, marked: bool) -> Seq<char> {
    let caret = if marked {
        " ▸  "@
    } else {
        "    "@
    };
    let label = row_label(row);
    match hint_text(row, trouble) {
        Some(hint) => caret + label + repeated(
            ' ',
            if label.len() < HINT_COLUMN {
                (HINT_COLUMN - label.len()) as nat
            } else {
                0
            },
        ) + hint,
        None => caret + label,
    }
}

/// The choice rows, the caret on the `cursor`th.
pub open spec fn rows_text(trouble: Trouble, cursor: int) -> Seq<Seq<char>> {
    Seq::new(
        offered_rows(trouble).len(),
        |i: int| row_line(offered_rows(trouble)[i], trouble, i == cursor),
    )
}

/// The whole body of the recovery box: a blank, the explanation, a blank, the choices,
/// a blank, the footnote.
pub open spec fn recovery_text(trouble: Trouble, cursor: int) -> Seq<Seq<char>> {
    seq![Seq::<char>::empty()] + explanation_text(trouble) + seq![Seq::<char>::empty()]
        + rows_text(trouble, cursor) + seq![Seq::<char>::empty()] + footnote_text(trouble)
}

/// The choices offered for `trouble`, top to bottom.
pub fn rows(trouble: Trouble) -> (r: Vec<RecoveryRow>)
    ensures
        r@ == offered_rows(trouble),
{
    match trouble {
        Trouble::BackupOffered { .. } => vec![
            RecoveryRow::RestoreBackup,
            RecoveryRow::NewGame,
            RecoveryRow::Quit,
        ],
        Trouble::NothingLeft | Trouble::Unreadable => vec![RecoveryRow::NewGame, RecoveryRow::Quit],
        Trouble::FromTheFuture { .. } => vec![RecoveryRow::Quit],
    }
}

/// What went wrong, in the player's words.
pub fn explanation(trouble: Trouble) -> (lines: Vec<String>)
    ensures
        views(lines@) == explanation_text(trouble),
{
    proof {
        reveal_strlit("");
    }
    match trouble {
        Trouble::BackupOffered { .. } => {
            let text = [
                " Your save does not match its checksum.",
                "",
                " Either the file was edited, or a write was interrupted.",
                " Skylode will not load it: the values inside cannot be",
                " trusted, and it will not guess which ones.",
            ];
            let lines = owned_lines(&text);
            assert(views(lines@) =~= explanation_text(trouble)) by {
                assert forall|i: int| 0 <= i < 5 implies views(lines@)[i] == explanation_text(trouble)[i] by {
                    assert(lines@[i]@ == text@[i]@);
                }
            }
            lines
        },
        Trouble::NothingLeft => {
            let text = [
                " Your save does not match its checksum,",
                " and neither does the backup.",
                "",
                " Skylode will not load either of them, and has changed",
                " neither.",
            ];
            let lines = owned_lines(&text);
            assert(views(lines@) =~= explanation_text(trouble)) by {
                assert forall|i: int| 0 <= i < 5 implies views(lines@)[i] == explanation_text(trouble)[i] by {
                    assert(lines@[i]@ == text@[i]@);
                }
            }
            lines
        },
        Trouble::Unreadable => {
            let text = [
                " Your save could not be read at all.",
                "",
                " The file is there and the system refused it: a",
                " permission, a disk that has gone away, a directory",
                " standing where a file should be.",
            ];
            let lines = owned_lines(&text);
            assert(views(lines@) =~= explanation_text(trouble)) by {
                assert forall|i: int| 0 <= i < 5 implies views(lines@)[i] == explanation_text(trouble)[i] by {
                    assert(lines@[i]@ == text@[i]@);
                }
            }
            lines
        },
        Trouble::FromTheFuture { found, current } => {
            let mut versions = " It is version ".to_owned();
            versions.append(decimal_string(found as u64).as_str());
            versions.append("; this build reads up to ");
            versions.append(decimal_string(current as u64).as_str());
            versions.append(".");
            let mut lines: Vec<String> = Vec::new();
            lines.push(" This save was written by a newer version of Skylode.".to_owned());
            lines.push("".to_owned());
            lines.push(versions);
            lines.push(" Skylode will not open it: a newer save can describe".to_owned());
            lines.push(" things these rules do not have.".to_owned());
            assert(lines@[1]@ =~= Seq::<char>::empty());
            assert(views(lines@) =~= explanation_text(trouble));
            lines
        },
    }
}

/// What each row is called.
pub fn label(row: RecoveryRow) -> (r: &'static str)
    ensures
        r@ == row_label(row),
{
    match row {
        RecoveryRow::RestoreBackup => "Restore the backup",
        RecoveryRow::NewGame => "Start a new game",
        RecoveryRow::Quit => "Quit",
    }
}

/// The short consequence printed beside a row, where it has one.
pub fn hint(row: RecoveryRow, trouble: Trouble) -> (r: Option<String>)
    ensures
        match r {
            Some(s) => hint_text(row, trouble) == Some(s@),
            None => hint_text(row, trouble) is None,
        },
{
    match (row, trouble) {
        (RecoveryRow::RestoreBackup, Trouble::BackupOffered { age: Some(since) }) => {
            let mut s = "saved ".to_owned();
            s.append(age(since).as_str());
            s.append(" ago");
            Some(s)
        },
        (RecoveryRow::NewGame, Trouble::BackupOffered { .. }) => Some(
            "the backup goes with it".to_owned(),
        ),
        (RecoveryRow::NewGame, _) => Some("both files are written over".to_owned()),
        _ => None,
    }
}

/// The paragraph under the rows.
pub fn footnote(trouble: Trouble) -> (lines: Vec<String>)
    ensures
        views(lines@) == footnote_text(trouble),
{
    let mut lines: Vec<String> = Vec::new();
    match trouble {
        Trouble::BackupOffered { .. } => {
            lines.push(" The backup is the last save that passed its check, so at".to_owned());
            lines.push(" most a few seconds of mining are missing.".to_owned());
        },
        Trouble::NothingLeft => {
            lines.push(" If you edited a save by hand, this is why. If you did not,".to_owned());
            lines.push(" the disk did — and the files are still there to look at.".to_owned());
        },
        Trouble::Unreadable => {
            lines.push(" The backup is no help here: both files live in the same".to_owned());
            lines.push(" directory, so whatever stopped one stops the other.".to_owned());
        },
        Trouble::FromTheFuture { .. } => {
            lines.push(" Update the game and it will open. Starting again is not".to_owned());
            lines.push(" offered: this save is not broken, and an older build".to_owned());
            lines.push(" would write over it.".to_owned());
        },
    }
    assert(views(lines@) =~= footnote_text(trouble));
    lines
}

/// One choice row, with the caret when `marked`.
pub fn row_text(row: RecoveryRow, trouble: Trouble, marked: bool) -> (s: String)
    ensures
        s@ == row_line(row, trouble, marked),
{
    let mut line = if marked {
        " ▸  ".to_owned()
    } else {
        "    ".to_owned()
    };
    let name = label(row);
    line.append(name);
    match hint(row, trouble) {
        Some(consequence) => {
            push_spaces(&mut line, HINT_COLUMN.saturating_sub(name.unicode_len()));
            line.append(consequence.as_str());
        },
        None => {},
    }
    line
}

/// The body of the recovery box for `trouble`, the caret on the `cursor`th choice.
pub fn body(trouble: Trouble, cursor: usize) -> (lines: Vec<String>)
    ensures
        views(lines@) == recovery_text(trouble, cursor as int),
{
    proof {
        reveal_strlit("");
    }
    let ghost blank = seq![Seq::<char>::empty()];
    let mut lines: Vec<String> = Vec::new();
    lines.push("".to_owned());
    assert(lines@[0]@ =~= Seq::<char>::empty());
    assert(views(lines@) =~= blank);
    append_lines(&mut lines, explanation(trouble));
    let ghost a = views(lines@);
    lines.push("".to_owned());
    assert(lines@[lines@.len() - 1]@ =~= Seq::<char>::empty());
    assert(views(lines@) =~= a + blank);
    let choices = rows(trouble);
    let ghost before_rows = views(lines@);
    let mut i: usize = 0;
    while i < choices.len()
        invariant
            i <= choices@.len(),
            choices@ == offered_rows(trouble),
            views(lines@) == before_rows + rows_text(trouble, cursor as int).subrange(0, i as int),
        decreases choices@.len() - i,
    {
        let ghost before = views(lines@);
        lines.push(row_text(choices[i], trouble, i == cursor));
        proof {
            assert(rows_text(trouble, cursor as int).subrange(0, i + 1) =~= rows_text(
                trouble,
                cursor as int,
            ).subrange(0, i as int).push(row_line(choices@[i as int], trouble, i == cursor)));
            assert(views(lines@) =~= before.push(row_line(choices@[i as int], trouble, i == cursor)));
        }
        i = i + 1;
    }
    assert(rows_text(trouble, cursor as int).subrange(0, choices@.len() as int) =~= rows_text(
        trouble,
        cursor as int,
    ));
    let ghost b = views(lines@);
    lines.push("".to_owned());
    assert(lines@[lines@.len() - 1]@ =~= Seq::<char>::empty());
    assert(views(lines@) =~= b + blank);
    append_lines(&mut lines, footnote(trouble));
    assert(views(lines@) =~= recovery_text(trouble, cursor as int));
    lines
}

/// **A backup is offered exactly when there is one, and quitting always is.** Restoring
/// appears only for a checksum failure with a backup to try; starting over appears for
/// every broken save but never for one that is merely newer than this build, since an
/// older build would write over it; and `Quit` is the last row of every screen.
pub proof fn lemma_the_choices_fit_the_trouble(trouble: Trouble)
    ensures
        offered_rows(trouble).contains(RecoveryRow::RestoreBackup) <==> trouble is BackupOffered,
        offered_rows(trouble).contains(RecoveryRow::NewGame) <==> !(trouble is FromTheFuture),
        offered_rows(trouble).len() >= 1,
        offered_rows(trouble).last() == RecoveryRow::Quit,
{
    let rows = offered_rows(trouble);
    if !(trouble is BackupOffered) {
        assert forall|i: int| 0 <= i < rows.len() implies rows[i] != RecoveryRow::RestoreBackup by {}
    }
    if trouble is FromTheFuture {
        assert forall|i: int| 0 <= i < rows.len() implies rows[i] != RecoveryRow::NewGame by {}
    } else {
        assert(rows[rows.len() - 2] == RecoveryRow::NewGame);
    }
    if trouble is BackupOffered {
        assert(rows[0] == RecoveryRow::RestoreBackup);
    }
}

/// **An age is never invented**: the restore row says how old the backup is exactly
/// when the loader knew, and only the restore row ever gives an age.
pub proof fn lemma_an_age_is_only_ever_reported(row: RecoveryRow, trouble: Trouble)
    ensures
        row == RecoveryRow::RestoreBackup ==> (hint_text(row, trouble) is Some <==> (
        trouble matches Trouble::BackupOffered { age: Some(_) })),
        row == RecoveryRow::Quit ==> hint_text(row, trouble) is None,
        row == RecoveryRow::NewGame ==> hint_text(row, trouble) is Some,
{
}

} // verus!
