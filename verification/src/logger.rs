//! Log levels, the subjects that log messages travel on, and which messages a
//! log client writes.
use crate::pub_sub::{MessageParseError, Subject};
use crate::text::{nth_field, push_text, same_text, split_on};
use core::cmp::Ordering;
use vstd::prelude::*;
use vstd::std_specs::cmp::PartialOrdSpec;

verus! {

/// Severity of a log message, from least to most severe.
#[derive(Copy, Clone, Debug, PartialEq, Eq, Ord, Hash)]
pub enum LogLevel {
    Debug,
    Info,
    Warning,
    Error,
}

/// The position of a level in the order `Debug < Info < Warning < Error`.
pub open spec fn rank(l: LogLevel) -> nat {
    match l {
        LogLevel::Debug => 0,
        LogLevel::Info => 1,
        LogLevel::Warning => 2,
        LogLevel::Error => 3,
    }
}

/// The lower-case name of a level, as it appears in subjects and configs.
pub open spec fn level_name(l: LogLevel) -> Seq<char> {
    match l {
        LogLevel::Debug => "debug"@,
        LogLevel::Info => "info"@,
        LogLevel::Warning => "warning"@,
        LogLevel::Error => "error"@,
    }
}

/// The level whose name is `s`, if any.
pub open spec fn level_from_name(s: Seq<char>) -> Option<LogLevel> {
    if s == "debug"@ {
        Some(LogLevel::Debug)
    } else if s == "info"@ {
        Some(LogLevel::Info)
    } else if s == "warning"@ {
        Some(LogLevel::Warning)
    } else if s == "error"@ {
        Some(LogLevel::Error)
    } else {
        None
    }
}

/// The subject on which messages of level `l` are published: `log.<name>`.
pub open spec fn main_subject_text(l: LogLevel) -> Seq<char> {
    "log."@ + level_name(l)
}

/// The full subject of a log message from the client part `sub`.
pub open spec fn log_subject_text(l: LogLevel, sub: Seq<char>) -> Seq<char> {
    main_subject_text(l) + "."@ + sub
}

/// The level that a received log subject names: its second dot-separated
/// field read as a level name.
pub open spec fn level_of_subject(s: Seq<char>) -> Option<LogLevel> {
    if split_on(s, '.').len() < 2 {
        None
    } else {
        level_from_name(split_on(s, '.')[1])
    }
}

/// Whether a log client with threshold `threshold` writes a message of
/// level `level`.
pub open spec fn writes(threshold: LogLevel, level: LogLevel) -> bool {
    rank(threshold) <= rank(level)
}

/// How two levels compare by severity.
pub open spec fn severity_order(a: LogLevel, b: LogLevel) -> Ordering {
    if rank(a) < rank(b) {
        Ordering::Less
    } else if rank(a) == rank(b) {
        Ordering::Equal
    } else {
        Ordering::Greater
    }
}

impl PartialOrd for LogLevel {
    fn partial_cmp(&self, other: &LogLevel) -> (r: Option<Ordering>) {
        let a = self.rank_u8();
        let b = other.rank_u8();
        if a < b {
            Some(Ordering::Less)
        } else if a == b {
            Some(Ordering::Equal)
        } else {
            Some(Ordering::Greater)
        }
    }
}

impl vstd::std_specs::cmp::PartialOrdSpecImpl for LogLevel {
    open spec fn obeys_partial_cmp_spec() -> bool {
        true
    }

    open spec fn partial_cmp_spec(&self, other: &LogLevel) -> Option<Ordering> {
        Some(severity_order(*self, *other))
    }
}

impl LogLevel {
    /// Whether this level lets debug messages through.
    pub fn is_debug(&self) -> (r: bool)
        ensures
            r == (rank(*self) <= rank(LogLevel::Debug)),
    {
        *self <= LogLevel::Debug
    }

    /// Whether this level is at most as severe as `other`.
    pub fn at_most(&self, other: LogLevel) -> (r: bool)
        ensures
            r == (rank(*self) <= rank(other)),
    {
        self.rank_u8() <= other.rank_u8()
    }

    fn rank_u8(&self) -> (r: u8)
        ensures
            r == rank(*self),
    {
        match self {
            LogLevel::Debug => 0,
            LogLevel::Info => 1,
            LogLevel::Warning => 2,
            LogLevel::Error => 3,
        }
    }

    /// The lower-case name of the level.
    pub fn name(&self) -> (r: &'static str)
        ensures
            r@ == level_name(*self),
    {
        match self {
            LogLevel::Debug => "debug",
            LogLevel::Info => "info",
            LogLevel::Warning => "warning",
            LogLevel::Error => "error",
        }
    }

    /// Reads a level from its lower-case name.
    pub fn from_name(value: &str) -> (r: Result<LogLevel, MessageParseError>)
        ensures
            match r {
                Ok(l) => level_from_name(value@) == Some(l),
                Err(e) => {
                    &&& level_from_name(value@) is None
                    &&& e matches MessageParseError::InvalidSubject(sub) && sub.0@ == value@
                },
            },
    {
        if same_text(value, "debug") {
            Ok(LogLevel::Debug)
        } else if same_text(value, "info") {
            Ok(LogLevel::Info)
        } else if same_text(value, "warning") {
            Ok(LogLevel::Warning)
        } else if same_text(value, "error") {
            Ok(LogLevel::Error)
        } else {
            Err(MessageParseError::InvalidSubject(Subject::from_text(value)))
        }
    }

    /// Reads the level of a received log message from its subject,
    /// `log.<level>.<client part>`.
    pub fn from_msg_subject(subject: &str) -> (r: Result<LogLevel, MessageParseError>)
        ensures
            match r {
                Ok(l) => level_of_subject(subject@) == Some(l),
                Err(e) => {
                    &&& level_of_subject(subject@) is None
                    &&& e matches MessageParseError::InvalidSubject(sub) && (if split_on(
                        subject@,
                        '.',
                    ).len() < 2 {
                        sub.0@ == subject@
                    } else {
                        sub.0@ == split_on(subject@, '.')[1]
                    })
                },
            },
    {
        match nth_field(subject, '.', 1) {
            None => Err(MessageParseError::InvalidSubject(Subject::from_text(subject))),
            Some(field) => LogLevel::from_name(field.as_str()),
        }
    }

    /// The subject on which messages of this level are published.
    pub fn main_subject(&self) -> (r: Subject)
        ensures
            r.0@ == main_subject_text(*self),
    {
        let mut s = "log.".to_owned();
        push_text(&mut s, self.name());
        Subject(s)
    }

    /// The full subject of a log message of this level from a client whose
    /// part of the subject is `sub_subject`.
    pub fn log_subject(&self, sub_subject: &str) -> (r: Subject)
        ensures
            r.0@ == log_subject_text(*self, sub_subject@),
    {
        let Subject(mut s) = self.main_subject();
        push_text(&mut s, ".");
        push_text(&mut s, sub_subject);
        Subject(s)
    }
}

/// Whether a log client that was started with `threshold` writes a message
/// of level `level`: errors always, the others when they are at least as
/// severe as the threshold.
pub fn should_write(threshold: LogLevel, level: LogLevel) -> (r: bool)
    ensures
        r == writes(threshold, level),
{
    match level {
        LogLevel::Error => true,
        _ => threshold.at_most(level),
    }
}

/// A log message.
#[derive(Clone, Debug, PartialEq, Eq)]
pub struct LogMsg(pub String);

/// The names of the levels are distinct and hold no dot.
pub proof fn lemma_level_names(l: LogLevel)
    ensures
        level_from_name(level_name(l)) == Some(l),
        !level_name(l).contains('.'),
{
    reveal_strlit("debug");
    reveal_strlit("info");
    reveal_strlit("warning");
    reveal_strlit("error");
    assert("debug"@.len() == 5 && "info"@.len() == 4 && "warning"@.len() == 7);
    assert("error"@.len() == 5 && "debug"@[0] == 'd' && "error"@[0] == 'e');
    if level_name(l).contains('.') {
        let i = choose|i: int| 0 <= i < level_name(l).len() && level_name(l)[i] == '.';
        assert(false);
    }
}

/// Reading a level back from its name gives the level, and nothing else has
/// a name.
pub proof fn law_level_name_round_trip(l: LogLevel, s: Seq<char>)
    ensures
        level_from_name(level_name(l)) == Some(l),
        level_from_name(s) == Some(l) ==> s == level_name(l),
{
    lemma_level_names(l);
}

/// A log message published on the subject built for level `l` is read back
/// by the log client as a message of level `l`, whatever the client part of
/// the subject holds.
pub proof fn law_log_subject_round_trip(l: LogLevel, sub: Seq<char>)
    ensures
        level_of_subject(log_subject_text(l, sub)) == Some(l),
{
    reveal_strlit("log.");
    reveal_strlit(".");
    lemma_level_names(l);
    let log = seq!['l', 'o', 'g'];
    assert(!log.contains('.')) by {
        if log.contains('.') {
            let i = choose|i: int| 0 <= i < log.len() && log[i] == '.';
            assert(false);
        }
    }
    let rest = level_name(l) + seq!['.'] + sub;
    assert(log_subject_text(l, sub) =~= log + seq!['.'] + rest);
    crate::text::lemma_split_on_field_then_rest(log, rest, '.');
    crate::text::lemma_split_on_field_then_rest(level_name(l), sub, '.');
    assert(split_on(log_subject_text(l, sub), '.')[1] == level_name(l));
}

/// Levels are ordered by severity: `Debug < Info < Warning < Error`, and
/// comparing two levels compares their positions in that order.
pub proof fn law_levels_ordered(a: LogLevel, b: LogLevel)
    ensures
        a.partial_cmp_spec(&b) == Some(severity_order(a, b)),
        LogLevel::Debug.partial_cmp_spec(&LogLevel::Info) == Some(Ordering::Less),
        LogLevel::Info.partial_cmp_spec(&LogLevel::Warning) == Some(Ordering::Less),
        LogLevel::Warning.partial_cmp_spec(&LogLevel::Error) == Some(Ordering::Less),
        severity_order(a, b) == Ordering::Less <==> severity_order(b, a) == Ordering::Greater,
{
}

/// The threshold order: a client writes every message at least as severe as
/// one it writes, and always writes errors.
pub proof fn law_writes_monotone(threshold: LogLevel, a: LogLevel, b: LogLevel)
    ensures
        writes(threshold, a) && rank(a) <= rank(b) ==> writes(threshold, b),
        writes(threshold, LogLevel::Error),
{
}


/// The names of the levels, and the threshold: a client writes every message
/// at its own level or above, none below it, and a `Debug` client writes
/// everything.
pub proof fn law_level_names_and_threshold(l: LogLevel)
    ensures
        level_name(LogLevel::Debug) == "debug"@,
        level_name(LogLevel::Info) == "info"@,
        level_name(LogLevel::Warning) == "warning"@,
        level_name(LogLevel::Error) == "error"@,
        main_subject_text(l) == "log."@ + level_name(l),
        writes(l, l),
        writes(LogLevel::Debug, l),
        !writes(LogLevel::Info, LogLevel::Debug),
        !writes(LogLevel::Warning, LogLevel::Info),
        !writes(LogLevel::Error, LogLevel::Warning),
        writes(LogLevel::Info, LogLevel::Warning),
        writes(LogLevel::Warning, LogLevel::Error),
{
}

} // verus!
