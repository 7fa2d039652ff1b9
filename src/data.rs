use vstd::prelude::*;
use crate::error::{Error, WhenParseError};

verus! {

/// A point in time, in whole seconds since the Unix epoch.
#[derive(Debug, Clone, Copy, PartialEq, Eq, Structural)]
pub struct Moment {
    pub secs: i64,
}

/// A reminder: what to be reminded of, when it falls due, and its state.
#[derive(Debug, Clone, PartialEq)]
pub struct Reminder {
    pub what: String,
    pub when: Moment,
    pub state: ReminderState,
}

/// Truncating division, rounding toward zero as Rust's `/` does.
pub open spec fn div_trunc(a: int, b: int) -> int
    recommends
        b > 0,
{
    if a >= 0 {
        a / b
    } else {
        -((-a) / b)
    }
}

/// Remainder of the truncating division: it takes the sign of `a`.
pub open spec fn rem_trunc(a: int, b: int) -> int
    recommends
        b > 0,
{
    a - b * div_trunc(a, b)
}

pub open spec fn digit_char(d: int) -> char {
    ((d + 48) as u8) as char
}

/// Decimal digits of a natural number, most significant first.
pub open spec fn nat_text(n: nat) -> Seq<char>
    decreases n,
{
    if n < 10 {
        seq![digit_char(n as int)]
    } else {
        nat_text(n / 10).push(digit_char((n % 10) as int))
    }
}

/// Decimal text of an integer, with a leading `-` when negative.
pub open spec fn int_text(n: int) -> Seq<char> {
    if n < 0 {
        seq!['-'] + nat_text((-n) as nat)
    } else {
        nat_text(n as nat)
    }
}

/// `HOURS:MINUTES` for a signed span of seconds: whole hours, then the
/// minutes left over, both truncated toward zero (so both carry the sign).
pub open spec fn remaining_text(span: int) -> Seq<char> {
    int_text(div_trunc(span, 3600)) + seq![':'] + int_text(rem_trunc(div_trunc(span, 60), 60))
}

/// Relies on i64's `Display` (through `ToString`): plain decimal notation.
#[verifier::external_body]
fn decimal(n: i64) -> (r: String)
    ensures
        r@ == int_text(n as int),
{
    n.to_string()
}

impl Reminder {
    /// True when the reminder is active and `now` is strictly past its due time.
    pub open spec fn overdue_at(self, now: Moment) -> bool {
        now.secs > self.when.secs && self.state == ReminderState::Active
    }

    /// The same reminder once dismissed.
    pub open spec fn dismissed(self) -> Reminder {
        Reminder { state: ReminderState::Dismissed, ..self }
    }

    pub fn new(what: String, when: Moment) -> (r: Reminder)
        ensures
            r.what == what,
            r.when == when,
            r.state == ReminderState::Active,
    {
        Reminder { what, when, state: ReminderState::Active }
    }

    pub fn is_overdue(&self, now: Moment) -> (r: bool)
        ensures
            r == self.overdue_at(now),
    {
        now.secs > self.when.secs && self.state == ReminderState::Active
    }

    pub fn time_remaining_str(&self, now: Moment) -> (r: String)
        requires
            i64::MIN < self.when.secs - now.secs <= i64::MAX,
        ensures
            r@ == remaining_text(self.when.secs - now.secs),
    {
        let span: i64 = self.when.secs - now.secs;
        let hours: i64;
        let minutes: i64;
        if span >= 0 {
            hours = span / 3600;
            minutes = (span / 60) % 60;
        } else {
            let a: i64 = -span;
            hours = -(a / 3600);
            minutes = -((a / 60) % 60);
            assert(rem_trunc(div_trunc(span as int, 60), 60) == -((a as int / 60) % 60))
                by (nonlinear_arith)
                requires
                    a == -span,
                    a > 0,
            ;
        }
        let mut text = decimal(hours);
        proof {
            reveal_strlit(":");
        }
        text.append(":");
        let tail = decimal(minutes);
        text.append(tail.as_str());
        text
    }
}

/// Once an active reminder is overdue it stays overdue at every later moment.
pub proof fn lemma_overdue_monotone(r: Reminder, t1: Moment, t2: Moment)
    requires
        r.state == ReminderState::Active,
        t1.secs < t2.secs,
        r.overdue_at(t1),
    ensures
        r.overdue_at(t2),
{
}

/// Dismissing twice leaves the reminder as one dismissal did, and a dismissed
/// reminder is overdue at no moment whatever its due time.
pub proof fn lemma_dismiss_idempotent(r: Reminder, now: Moment)
    ensures
        r.dismissed().dismissed() == r.dismissed(),
        r.dismissed().state == ReminderState::Dismissed,
        !r.dismissed().overdue_at(now),
{
}

/// Lifecycle of a reminder: it starts active and can only be dismissed.
#[derive(Debug, Clone, Copy, PartialEq, Eq, Structural)]
pub enum ReminderState {
    Active,
    Dismissed,
}

impl ReminderState {
    /// Integer code of a state, as stored: `0` for active, `1` for dismissed.
    pub open spec fn code(self) -> i32 {
        match self {
            ReminderState::Active => 0,
            ReminderState::Dismissed => 1,
        }
    }

    pub fn as_i32(&self) -> (r: i32)
        ensures
            r == self.code(),
    {
        match self {
            ReminderState::Active => 0,
            ReminderState::Dismissed => 1,
        }
    }

    /// Decodes a stored state code; any code but `0` and `1` is refused.
    pub fn from_i32(i: i32) -> (r: Result<ReminderState, Error>)
        ensures
            i == 0 ==> r == Ok::<ReminderState, Error>(ReminderState::Active),
            i == 1 ==> r == Ok::<ReminderState, Error>(ReminderState::Dismissed),
            i != 0 && i != 1 ==> (r matches Err(Error::UnknownReminderState)),
            r matches Ok(s) ==> s.code() == i,
    {
        match i {
            0 => Ok(ReminderState::Active),
            1 => Ok(ReminderState::Dismissed),
            _ => Err(Error::UnknownReminderState),
        }
    }
}

/// A value together with the identifier the store gave it.
#[derive(Debug, Clone, PartialEq)]
pub struct Id<A> {
    pub id: i64,
    pub value: A,
}

impl<A> Id<A> {
    /// Transforms the value and keeps the identifier.
    pub fn map<B, F: Fn(A) -> B>(self, f: F) -> (r: Id<B>)
        requires
            f.requires((self.value,)),
        ensures
            r.id == self.id,
            f.ensures((self.value,), r.value),
    {
        Id { id: self.id, value: f(self.value) }
    }

    pub fn value(&self) -> (r: &A)
        ensures
            *r == self.value,
    {
        &self.value
    }

    pub fn id(&self) -> (r: i64)
        ensures
            r == self.id,
    {
        self.id
    }

    pub fn into_value(self) -> (r: A)
        ensures
            r == self.value,
    {
        self.value
    }
}

/// An offset from the moment it is resolved at: a count of one time unit.
#[derive(Debug, Clone, PartialEq, Eq, Structural)]
pub enum When {
    InWeeks(u32),
    InDays(u32),
    InHours(u32),
    InMinutes(u32),
}

impl When {
    /// Length of the offset in seconds.
    pub open spec fn seconds(self) -> int {
        match self {
            When::InWeeks(n) => n * 604800,
            When::InDays(n) => n * 86400,
            When::InHours(n) => n * 3600,
            When::InMinutes(n) => n * 60,
        }
    }

    /// Resolves the offset against `now`: the moment that lies the offset after it.
    pub fn as_datetime(&self, now: Moment) -> (r: Moment)
        requires
            now.secs + self.seconds() <= i64::MAX,
        ensures
            r.secs == now.secs + self.seconds(),
    {
        let offset: i64 = match self {
            When::InWeeks(n) => *n as i64 * 604800,
            When::InDays(n) => *n as i64 * 86400,
            When::InHours(n) => *n as i64 * 3600,
            When::InMinutes(n) => *n as i64 * 60,
        };
        Moment { secs: now.secs + offset }
    }
}

pub open spec fn is_digit(c: char) -> bool {
    '0' <= c && c <= '9'
}

/// Index just past the run of digits that starts at `k`.
pub open spec fn digits_end(s: Seq<char>, k: int) -> int
    decreases s.len() - k,
{
    if 0 <= k < s.len() && is_digit(s[k]) {
        digits_end(s, k + 1)
    } else {
        k
    }
}

/// Value of a string of decimal digits.
pub open spec fn digits_value(d: Seq<char>) -> nat
    decreases d.len(),
{
    if d.len() == 0 {
        0
    } else {
        digits_value(d.drop_last()) * 10 + (d.last() as nat - 48) as nat
    }
}

pub open spec fn has3(s: Seq<char>, k: int, a: char, b: char, c: char) -> bool {
    0 <= k && k + 3 <= s.len() && s[k] == a && s[k + 1] == b && s[k + 2] == c
}

pub open spec fn has4(s: Seq<char>, k: int, a: char, b: char, c: char, d: char) -> bool {
    has3(s, k, a, b, c) && k + 4 <= s.len() && s[k + 3] == d
}

/// The unit word at `k`, tried in the order `day`, `week`, `hour`, `min`
/// (`minute` begins with `min`, and a trailing `s` changes nothing).
pub open spec fn unit_at(s: Seq<char>, k: int, n: u32) -> Option<When> {
    if has3(s, k, 'd', 'a', 'y') {
        Some(When::InDays(n))
    } else if has4(s, k, 'w', 'e', 'e', 'k') {
        Some(When::InWeeks(n))
    } else if has4(s, k, 'h', 'o', 'u', 'r') {
        Some(When::InHours(n))
    } else if has3(s, k, 'm', 'i', 'n') {
        Some(When::InMinutes(n))
    } else {
        None
    }
}

/// The phrase `in <digits> <unit>` starts at `i`.
pub open spec fn phrase_at(s: Seq<char>, i: int) -> bool {
    let e = digits_end(s, i + 3);
    has3(s, i, 'i', 'n', ' ') && e > i + 3 && e < s.len() && s[e] == ' ' && unit_at(s, e + 1, 0)
        is Some
}

/// The leftmost start, at `i` or later, of a phrase.
pub open spec fn first_phrase(s: Seq<char>, i: int) -> Option<int>
    decreases s.len() - i,
{
    if 0 <= i < s.len() {
        if phrase_at(s, i) {
            Some(i)
        } else {
            first_phrase(s, i + 1)
        }
    } else {
        None
    }
}

/// Relies on `str::parse::<u32>`: a string of ASCII digits parses to its
/// value, and fails exactly when that value does not fit in a `u32`.
#[verifier::external_body]
fn parse_u32(d: &str) -> (r: Result<u32, std::num::ParseIntError>)
    requires
        d@.len() > 0,
        forall|j: int| 0 <= j < d@.len() ==> is_digit(#[trigger] d@[j]),
    ensures
        r is Ok <==> digits_value(d@) <= u32::MAX,
        r matches Ok(v) ==> v == digits_value(d@),
{
    d.parse::<u32>()
}

fn char_is(s: &str, n: usize, k: usize, c: char) -> (r: bool)
    requires
        n == s@.len(),
    ensures
        r == (k < n && s@[k as int] == c),
{
    k < n && s.get_char(k) == c
}

fn unit_here(s: &str, n: usize, k: usize, v: u32) -> (r: Option<When>)
    requires
        n == s@.len(),
        k < usize::MAX - 4,
    ensures
        r == unit_at(s@, k as int, v),
{
    if char_is(s, n, k, 'd') && char_is(s, n, k + 1, 'a') && char_is(s, n, k + 2, 'y') {
        Some(When::InDays(v))
    } else if char_is(s, n, k, 'w') && char_is(s, n, k + 1, 'e') && char_is(s, n, k + 2, 'e')
        && char_is(s, n, k + 3, 'k') {
        Some(When::InWeeks(v))
    } else if char_is(s, n, k, 'h') && char_is(s, n, k + 1, 'o') && char_is(s, n, k + 2, 'u')
        && char_is(s, n, k + 3, 'r') {
        Some(When::InHours(v))
    } else if char_is(s, n, k, 'm') && char_is(s, n, k + 1, 'i') && char_is(s, n, k + 2, 'n') {
        Some(When::InMinutes(v))
    } else {
        None
    }
}

fn digits_from(s: &str, n: usize, k: usize) -> (e: usize)
    requires
        n == s@.len(),
        k <= n,
    ensures
        e as int == digits_end(s@, k as int),
        k <= e <= n,
        forall|j: int| k <= j < e ==> is_digit(#[trigger] s@[j]),
{
    let mut j: usize = k;
    while j < n && is_ascii_digit(s.get_char(j))
        invariant
            n == s@.len(),
            k <= j <= n,
            digits_end(s@, k as int) == digits_end(s@, j as int),
            forall|m: int| k <= m < j ==> is_digit(#[trigger] s@[m]),
        decreases n - j,
    {
        j = j + 1;
    }
    j
}

fn is_ascii_digit(c: char) -> (r: bool)
    ensures
        r == is_digit(c),
{
    '0' <= c && c <= '9'
}

/// Where the phrase at `i` has its number end, if a phrase starts there.
fn phrase_here(s: &str, n: usize, i: usize) -> (r: Option<usize>)
    requires
        n == s@.len(),
        n < usize::MAX - 8,
        i < n,
    ensures
        r is Some <==> phrase_at(s@, i as int),
        r matches Some(e) ==> e == digits_end(s@, i + 3) && i + 3 < e < n && forall|j: int|
            i + 3 <= j < e ==> is_digit(#[trigger] s@[j]),
{
    if !(char_is(s, n, i, 'i') && char_is(s, n, i + 1, 'n') && char_is(s, n, i + 2, ' ')) {
        return None;
    }
    let e = digits_from(s, n, i + 3);
    if e > i + 3 && char_is(s, n, e, ' ') && unit_here(s, n, e + 1, 0).is_some() {
        Some(e)
    } else {
        None
    }
}

/// The parse that `When::parse` gives on `s`.
pub open spec fn parse_result_ok(s: Seq<char>) -> Option<When> {
    match first_phrase(s, 0) {
        None => None,
        Some(i) => {
            let e = digits_end(s, i + 3);
            let v = digits_value(s.subrange(i + 3, e));
            if v <= u32::MAX {
                unit_at(s, e + 1, v as u32)
            } else {
                None
            }
        },
    }
}

impl When {
    /// Parses the first `in <number> <unit>[s]` phrase in `s`, where the unit
    /// is `day`, `week`, `hour`, `min` or `minute`.
    pub fn parse(s: &str) -> (r: Result<When, WhenParseError>)
        requires
            s@.len() < usize::MAX - 8,
        ensures
            first_phrase(s@, 0) is None <==> (r matches Err(WhenParseError::NoCaptures(t)) && t@
                == s@),
            first_phrase(s@, 0) matches Some(i) && digits_value(
                s@.subrange(i + 3, digits_end(s@, i + 3)),
            ) > u32::MAX <==> (r matches Err(WhenParseError::ParseInt(_))),
            r is Ok <==> parse_result_ok(s@) is Some,
            r matches Ok(w) ==> parse_result_ok(s@) == Some(w),
    {
        let n = s.unicode_len();
        let mut i: usize = 0;
        while i < n
            invariant
                n == s@.len(),
                n < usize::MAX - 8,
                i <= n,
                first_phrase(s@, 0) == first_phrase(s@, i as int),
            decreases n - i,
        {
            match phrase_here(s, n, i) {
                Some(e) => {
                    let digits = s.substring_char(i + 3, e);
                    assert(forall|j: int| 0 <= j < digits@.len() ==> digits@[j] == s@[i + 3 + j]);
                    let v = match parse_u32(digits) {
                        Ok(v) => v,
                        Err(err) => {
                            return Err(WhenParseError::ParseInt(err));
                        },
                    };
                    return match unit_here(s, n, e + 1, v) {
                        Some(w) => Ok(w),
                        None => Err(WhenParseError::NoUnit(s.to_owned())),
                    };
                },
                None => {},
            }
            i = i + 1;
        }
        Err(WhenParseError::NoCaptures(s.to_owned()))
    }
}

} // verus!
