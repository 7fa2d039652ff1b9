use vstd::prelude::*;
use crate::data::{Id, Moment, Reminder, ReminderState};
use crate::error::Error;

verus! {

/// Schema of the reminder table.
pub const CREATE_TABLE: &'static str =
    "CREATE TABLE reminders (id INTEGER PRIMARY KEY, what TEXT, when_ TEXT, state INTEGER);";

/// Appends a row; parameters: what, when, state code.
pub const INSERT_REMINDER: &'static str = "INSERT INTO reminders (what, when_, state) VALUES (?, ?, ?)";

/// All rows in one state; parameter: the state code.
pub const SELECT_BY_STATE: &'static str = "SELECT * FROM reminders WHERE state = ?";

/// Rows in one state whose text is like a pattern; parameters: state code, pattern.
pub const SELECT_BY_STATE_AND_WHAT: &'static str =
    "SELECT * FROM reminders WHERE state = ? and what LIKE ?";

/// Sets the state of the row with an id; parameters: state code, id.
pub const UPDATE_STATE: &'static str = "UPDATE reminders SET state = ? WHERE id = ?";

/// A row of the reminder table as read back, before its state is decoded.
#[derive(Debug, Clone)]
pub struct StoredRow {
    pub id: i64,
    pub what: String,
    pub when: Moment,
    pub state: i32,
}

/// True when `state` is the code of a known state.
pub open spec fn known_code(state: i32) -> bool {
    state == 0 || state == 1
}

/// `r` is what `row` decodes to.
pub open spec fn decodes_to(row: StoredRow, r: Id<Reminder>) -> bool {
    &&& r.id == row.id
    &&& r.value.what == row.what
    &&& r.value.when == row.when
    &&& r.value.state.code() == row.state
}

/// A row whose state code is the dismissed one decodes to a reminder that is
/// overdue at no moment.
pub proof fn lemma_dismissed_row_never_overdue(row: StoredRow, v: Id<Reminder>, now: Moment)
    requires
        row.state == ReminderState::Dismissed.code(),
        decodes_to(row, v),
    ensures
        v.value.state == ReminderState::Dismissed,
        !v.value.overdue_at(now),
{
}

/// The `LIKE` pattern that matches every text containing `pattern`.
pub fn search_pattern(pattern: &str) -> (r: String)
    ensures
        r@ == seq!['%'] + pattern@ + seq!['%'],
{
    let mut r = "%".to_owned();
    proof {
        reveal_strlit("%");
    }
    r.append(pattern);
    r.append("%");
    r
}

/// Decodes one row; a state code that names no state is refused.
pub fn decode_row(row: StoredRow) -> (r: Result<Id<Reminder>, Error>)
    ensures
        r is Ok <==> known_code(row.state),
        r matches Ok(v) ==> decodes_to(row, v),
        r is Err ==> (r matches Err(Error::UnknownReminderState)),
{
    match ReminderState::from_i32(row.state) {
        Ok(state) => Ok(Id { id: row.id, value: Reminder { what: row.what, when: row.when, state } }),
        Err(e) => Err(e),
    }
}

/// Decodes every row, in order; one row with an unknown state code fails the
/// whole batch.
pub fn decode_rows(rows: Vec<StoredRow>) -> (r: Result<Vec<Id<Reminder>>, Error>)
    ensures
        r is Ok <==> forall|i: int| 0 <= i < rows@.len() ==> known_code(#[trigger] rows@[i].state),
        r matches Ok(v) ==> v@.len() == rows@.len() && forall|i: int|
            0 <= i < rows@.len() ==> decodes_to(#[trigger] rows@[i], v@[i]),
        r is Err ==> (r matches Err(Error::UnknownReminderState)),
{
    let mut out: Vec<Id<Reminder>> = Vec::new();
    let n = rows.len();
    let mut rest = rows;
    let ghost all = rest@;
    assert(all == rows@);
    let mut i: usize = 0;
    // Take the rows from the back and place them in order at the end.
    while i < n
        invariant
            n == all.len(),
            all == rows@,
            i <= n,
            rest@ == all.subrange(0, n - i),
            out@.len() == i,
            forall|k: int| 0 <= k < i ==> decodes_to(all[n - i + k], #[trigger] out@[k]),
            forall|k: int| n - i <= k < n ==> known_code(#[trigger] all[k].state),
        decreases n - i,
    {
        let row = rest.pop().unwrap();
        assert(row == all[n - i - 1]);
        match decode_row(row) {
            Ok(v) => {
                out.insert(0, v);
            },
            Err(e) => {
                assert(!known_code(all[n - i - 1].state));
                return Err(e);
            },
        }
        i = i + 1;
    }
    Ok(out)
}

} // verus!
