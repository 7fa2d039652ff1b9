use chrono::{DateTime, Local, TimeZone};
use remind_me::data::{Id, Moment, Reminder, ReminderState};
use remind_me::error::Error;
use remind_me::store::{
    decode_row, decode_rows, search_pattern, StoredRow, CREATE_TABLE, INSERT_REMINDER,
    SELECT_BY_STATE, SELECT_BY_STATE_AND_WHAT, UPDATE_STATE,
};
use rusqlite::Connection;

fn local(m: Moment) -> DateTime<Local> {
    Local.timestamp_opt(m.secs, 0).unwrap()
}

fn fresh() -> Connection {
    let conn = Connection::open_in_memory().unwrap();
    conn.execute(CREATE_TABLE, ()).unwrap();
    conn
}

fn insert(conn: &Connection, r: &Reminder) {
    conn.execute(INSERT_REMINDER, (&r.what, local(r.when), r.state.as_i32())).unwrap();
}

fn read(conn: &Connection, sql: &str, params: impl rusqlite::Params) -> Vec<StoredRow> {
    let mut stmt = conn.prepare(sql).unwrap();
    let rows = stmt
        .query_map(params, |row| {
            let when: DateTime<Local> = row.get(2)?;
            Ok(StoredRow { id: row.get(0)?, what: row.get(1)?, when: Moment { secs: when.timestamp() }, state: row.get(3)? })
        })
        .unwrap();
    rows.map(|r| r.unwrap()).collect()
}

fn list_active(conn: &Connection) -> Result<Vec<Id<Reminder>>, Error> {
    decode_rows(read(conn, SELECT_BY_STATE, [ReminderState::Active.as_i32()]))
}

fn find(conn: &Connection, pattern: &str) -> Result<Vec<Id<Reminder>>, Error> {
    decode_rows(read(conn, SELECT_BY_STATE_AND_WHAT, (ReminderState::Active.as_i32(), search_pattern(pattern))))
}

fn dismiss(conn: &Connection, id: i64) {
    conn.execute(UPDATE_STATE, (ReminderState::Dismissed.as_i32(), id)).unwrap();
}

fn two_reminders() -> Connection {
    let conn = fresh();
    insert(&conn, &Reminder::new("buy milk".to_string(), Moment { secs: 1_704_067_200 }));
    insert(&conn, &Reminder::new("call mom".to_string(), Moment { secs: 1_704_153_600 }));
    conn
}

#[test]
fn search_pattern_wraps_in_wildcards() {
    assert_eq!(search_pattern("milk"), "%milk%");
    assert_eq!(search_pattern(""), "%%");
}

#[test]
fn search_finds_containing_text_only() {
    let conn = two_reminders();
    let found = find(&conn, "milk").unwrap();
    assert_eq!(found.len(), 1);
    assert_eq!(found[0].value.what, "buy milk");
    assert_eq!(found[0].value.when, Moment { secs: 1_704_067_200 });
    assert_eq!(found[0].value.state, ReminderState::Active);
}

#[test]
fn empty_search_finds_all_active() {
    let conn = two_reminders();
    let mut whats: Vec<String> = find(&conn, "").unwrap().into_iter().map(|r| r.value.what).collect();
    whats.sort();
    assert_eq!(whats, vec!["buy milk".to_string(), "call mom".to_string()]);
}

#[test]
fn list_active_excludes_dismissed() {
    let conn = two_reminders();
    let all = list_active(&conn).unwrap();
    assert_eq!(all.len(), 2);
    let milk = all.iter().find(|r| r.value.what == "buy milk").unwrap().id;
    dismiss(&conn, milk);
    let left = list_active(&conn).unwrap();
    assert_eq!(left.len(), 1);
    assert_eq!(left[0].value.what, "call mom");
    assert!(find(&conn, "milk").unwrap().is_empty());
}

#[test]
fn dismiss_twice_stays_dismissed() {
    let conn = two_reminders();
    let id = list_active(&conn).unwrap()[0].id;
    dismiss(&conn, id);
    dismiss(&conn, id);
    dismiss(&conn, 999);
    assert_eq!(list_active(&conn).unwrap().len(), 1);
    let rows = read(&conn, SELECT_BY_STATE, [ReminderState::Dismissed.as_i32()]);
    let gone = decode_rows(rows).unwrap();
    assert_eq!(gone.len(), 1);
    assert_eq!(gone[0].id, id);
    assert!(!gone[0].value.is_overdue(Moment { secs: i64::MAX }));
}

#[test]
fn unknown_state_fails_the_whole_query() {
    let conn = two_reminders();
    conn.execute(INSERT_REMINDER, ("odd", local(Moment { secs: 0 }), 2)).unwrap();
    let rows = read(&conn, "SELECT * FROM reminders", ());
    assert_eq!(rows.len(), 3);
    assert!(matches!(decode_rows(rows), Err(Error::UnknownReminderState)));
}

#[test]
fn decode_keeps_order_and_fields() {
    let rows = vec![
        StoredRow { id: 3, what: "a".to_string(), when: Moment { secs: 5 }, state: 1 },
        StoredRow { id: 1, what: "b".to_string(), when: Moment { secs: -5 }, state: 0 },
    ];
    let out = decode_rows(rows).unwrap();
    assert_eq!(out.len(), 2);
    assert_eq!(out[0], Id { id: 3, value: Reminder { what: "a".to_string(), when: Moment { secs: 5 }, state: ReminderState::Dismissed } });
    assert_eq!(out[1], Id { id: 1, value: Reminder { what: "b".to_string(), when: Moment { secs: -5 }, state: ReminderState::Active } });
    assert!(decode_rows(Vec::new()).unwrap().is_empty());
}

#[test]
fn decode_row_rejects_unknown_state() {
    let bad = StoredRow { id: 1, what: "x".to_string(), when: Moment { secs: 0 }, state: 7 };
    assert!(matches!(decode_row(bad), Err(Error::UnknownReminderState)));
}
