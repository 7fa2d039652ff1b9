use vstd::prelude::*;

verus! {

#[verifier::external_type_specification]
#[verifier::external_body]
pub struct ExParseIntError(std::num::ParseIntError);

/// Failures of the store and of the domain layer.
#[derive(Debug)]
pub enum Error {
    NoValidHomeDirectory,
    UnknownReminderState,
    /// A failure of the storage engine, with the engine's own message.
    Sqlite(String),
    WhenParse(WhenParseError),
}

/// Failures of the time-phrase parser; each text variant carries the input.
#[derive(Debug)]
pub enum WhenParseError {
    NoCaptures(String),
    NoNumber(String),
    NoUnit(String),
    ParseInt(std::num::ParseIntError),
}

/// Relies on `ParseIntError`'s `Display` (through `ToString`) for its text.
#[verifier::external_body]
fn int_error_text(e: &std::num::ParseIntError) -> String {
    e.to_string()
}

impl WhenParseError {
    /// Text for the user, naming the input that could not be read.
    pub fn message(&self) -> (r: String)
        ensures
            self matches WhenParseError::NoCaptures(s) ==> r@ == "Couldn't determine when from \""@
                + s@ + "\""@,
            self matches WhenParseError::NoNumber(s) ==> r@ == "Couldn't determine a number from \""@
                + s@ + "\""@,
            self matches WhenParseError::NoUnit(s) ==> r@ == "Couldn't determine a time unit form \""@
                + s@ + "\""@,
            self is ParseInt ==> exists|t: Seq<char>| r@ == "Couldn't parse an integer: "@ + t,
    {
        let (mut r, s) = match self {
            WhenParseError::NoCaptures(s) => ("Couldn't determine when from \"".to_owned(), s),
            WhenParseError::NoNumber(s) => ("Couldn't determine a number from \"".to_owned(), s),
            WhenParseError::NoUnit(s) => ("Couldn't determine a time unit form \"".to_owned(), s),
            WhenParseError::ParseInt(e) => {
                let mut r = "Couldn't parse an integer: ".to_owned();
                let t = int_error_text(e);
                r.append(t.as_str());
                assert(r@ == "Couldn't parse an integer: "@ + t@);
                return r;
            },
        };
        r.append(s.as_str());
        r.append("\"");
        r
    }
}

impl Error {
    /// Text for the user.
    pub fn message(&self) -> (r: String)
        ensures
            self is NoValidHomeDirectory ==> r@ == "No valid home directory"@,
            self is UnknownReminderState ==> r@ == "Unknown reminder state"@,
            self matches Error::Sqlite(m) ==> r@ == "Sqlite error: "@ + m@,
            self is WhenParse ==> exists|t: Seq<char>| r@ == "Couldn't parse when: "@ + t,
    {
        match self {
            Error::NoValidHomeDirectory => "No valid home directory".to_owned(),
            Error::UnknownReminderState => "Unknown reminder state".to_owned(),
            Error::Sqlite(m) => {
                let mut r = "Sqlite error: ".to_owned();
                r.append(m.as_str());
                r
            },
            Error::WhenParse(e) => {
                let mut r = "Couldn't parse when: ".to_owned();
                let t = e.message();
                r.append(t.as_str());
                assert(r@ == "Couldn't parse when: "@ + t@);
                r
            },
        }
    }
}

} // verus!
