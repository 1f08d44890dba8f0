//! Diagnostics: the priorities of log entries and the orders to list them in.

use vstd::prelude::*;

verus! {

/// `text` with every character in lower case.
pub uninterp spec fn lowercased(text: Seq<char>) -> Seq<char>;

/// Lowers the case with `str::to_lowercase`. Trusted: the result is the lower
/// case of `text`.
#[verifier::external_body]
fn to_lowercase(text: &str) -> (lower: String)
    ensures
        lower@ == lowercased(text@),
{
    text.to_lowercase()
}

/// How much a log entry matters.
#[derive(Clone, Copy, Debug, PartialEq, Eq, Structural)]
pub enum Priority {
    Info,
    TraceHttp,
    Debug,
}

/// The order in which log entries are listed.
#[derive(Clone, Copy, Debug, PartialEq, Eq, Structural)]
pub enum Sort {
    Ascending,
    Descending,
}

/// One log entry.
#[derive(Clone, Debug, PartialEq)]
pub struct LogEntry {
    pub timestamp: u64,
    pub priority: Priority,
    pub file: String,
    pub line: u32,
    pub message: String,
    pub counter: u64,
}

/// Log entries.
#[derive(Clone, Default, Debug, PartialEq)]
pub struct Log {
    pub entries: Vec<LogEntry>,
}

/// The priority that `name` names, whatever its case.
pub open spec fn priority_named(name: Seq<char>) -> Option<Priority> {
    if lowercased(name) == "info"@ {
        Some(Priority::Info)
    } else if lowercased(name) == "trace_http"@ {
        Some(Priority::TraceHttp)
    } else if lowercased(name) == "debug"@ {
        Some(Priority::Debug)
    } else {
        None
    }
}

/// The order that `name` names, whatever its case.
pub open spec fn sort_named(name: Seq<char>) -> Option<Sort> {
    if lowercased(name) == "asc"@ {
        Some(Sort::Ascending)
    } else if lowercased(name) == "desc"@ {
        Some(Sort::Descending)
    } else {
        None
    }
}

fn reads(text: &String, literal: &str) -> (same: bool)
    ensures
        same == (text@ == literal@),
{
    let other = literal.to_owned();
    *text == other
}

impl Priority {
    /// The priority given the lower case of its name.
    pub fn from_lowercase(lower: &String) -> (priority: Result<Priority, String>)
        ensures
            priority matches Ok(p) ==> (match p {
                Priority::Info => lower@ == "info"@,
                Priority::TraceHttp => lower@ == "trace_http"@,
                Priority::Debug => lower@ == "debug"@,
            }),
            priority matches Err(e) ==> e@ == "could not recognize priority"@ && lower@ != "info"@
                && lower@ != "trace_http"@ && lower@ != "debug"@,
    {
        if reads(lower, "info") {
            Ok(Priority::Info)
        } else if reads(lower, "trace_http") {
            Ok(Priority::TraceHttp)
        } else if reads(lower, "debug") {
            Ok(Priority::Debug)
        } else {
            Err("could not recognize priority".to_owned())
        }
    }

    /// The priority that `s` names, whatever its case: `info`, `trace_http`
    /// or `debug`.
    pub fn from_str(s: &str) -> (priority: Result<Priority, String>)
        ensures
            priority is Ok <==> priority_named(s@) is Some,
            priority matches Ok(p) ==> priority_named(s@) == Some(p),
            priority matches Err(e) ==> e@ == "could not recognize priority"@,
    {
        proof {
            distinct_names();
        }
        let lower = to_lowercase(s);
        Priority::from_lowercase(&lower)
    }
}

impl Sort {
    /// The order given the lower case of its name.
    pub fn from_lowercase(lower: &String) -> (sort: Result<Sort, String>)
        ensures
            sort matches Ok(o) ==> (match o {
                Sort::Ascending => lower@ == "asc"@,
                Sort::Descending => lower@ == "desc"@,
            }),
            sort matches Err(e) ==> e@ == "could not recognize sort order"@ && lower@ != "asc"@
                && lower@ != "desc"@,
    {
        if reads(lower, "asc") {
            Ok(Sort::Ascending)
        } else if reads(lower, "desc") {
            Ok(Sort::Descending)
        } else {
            Err("could not recognize sort order".to_owned())
        }
    }

    /// The order that `s` names, whatever its case: `asc` or `desc`.
    pub fn from_str(s: &str) -> (sort: Result<Sort, String>)
        ensures
            sort is Ok <==> sort_named(s@) is Some,
            sort matches Ok(o) ==> sort_named(s@) == Some(o),
            sort matches Err(e) ==> e@ == "could not recognize sort order"@,
    {
        proof {
            distinct_names();
        }
        let lower = to_lowercase(s);
        Sort::from_lowercase(&lower)
    }
}

/// The names of the priorities differ from one another, and so do those of
/// the orders.
proof fn distinct_names()
    ensures
        "info"@ != "trace_http"@,
        "info"@ != "debug"@,
        "trace_http"@ != "debug"@,
        "asc"@ != "desc"@,
{
    reveal_strlit("info");
    reveal_strlit("trace_http");
    reveal_strlit("debug");
    reveal_strlit("asc");
    reveal_strlit("desc");
    assert("info"@.len() == 4);
    assert("trace_http"@.len() == 10);
    assert("debug"@.len() == 5);
    assert("asc"@.len() == 3);
    assert("desc"@.len() == 4);
}

} // verus!
