//! Whether a node is healthy, as the detailed health report of a dshackle
//! instance tells it.
//!
//! The report is text. The line that names the node reads `<node> <status>
//! with lag=<blocks>`; the first line of that form decides.

use crate::pattern::{captures, compile, regex_captures, regex_pattern};
use crate::radix::{digits_of, parse, parse_decimal, write_decimal, NumberError};
use vstd::prelude::*;
use vstd::string::StrSliceExecFns;
use vstd::string::StringExecFns;

verus! {

/// What the adapter is started with.
#[derive(Debug, PartialEq, Eq)]
pub struct Arguments {
    /// The address on which the adapter listens.
    pub bind_address: String,
    /// Where the detailed health report is read from.
    pub health_url: String,
    /// The name of the node in the report.
    pub node_id: String,
    /// How many blocks the node may lag behind before it counts as
    /// unhealthy. Where this is unset, the status in the report stands.
    pub unhealthy_lag: Option<u64>,
}

/// The state of a node.
#[derive(Debug, PartialEq, Eq)]
pub enum Status {
    Healthy,
    Lagging,
    Unavailable,
    /// A status that the report gives under another name.
    Other(String),
}

/// The mathematical value of a [`Status`].
pub enum StatusView {
    Healthy,
    Lagging,
    Unavailable,
    Other(Seq<char>),
}

impl View for Status {
    type V = StatusView;

    open spec fn view(&self) -> StatusView {
        match self {
            Status::Healthy => StatusView::Healthy,
            Status::Lagging => StatusView::Lagging,
            Status::Unavailable => StatusView::Unavailable,
            Status::Other(name) => StatusView::Other(name@),
        }
    }
}

impl StatusView {
    /// The status that the report gives under the name `label`.
    pub open spec fn from_label(label: Seq<char>) -> StatusView {
        if label == "OK"@ {
            StatusView::Healthy
        } else if label == "LAGGING"@ {
            StatusView::Lagging
        } else if label == "UNAVAILABLE"@ {
            StatusView::Unavailable
        } else {
            StatusView::Other(label)
        }
    }

    /// The name of the status.
    pub open spec fn label(self) -> Seq<char> {
        match self {
            StatusView::Healthy => "OK"@,
            StatusView::Lagging => "LAGGING"@,
            StatusView::Unavailable => "UNAVAILABLE"@,
            StatusView::Other(name) => name,
        }
    }

    /// The HTTP status code that the status is reported with: 200 for `Healthy`,
    /// 503 for every other.
    pub open spec fn http_status_code(self) -> u16 {
        match self {
            StatusView::Healthy => 200,
            _ => 503,
        }
    }

    /// The status after the lag has been held against the limit.
    ///
    /// Where a limit is set, a node that the report calls `OK` or `LAGGING`
    /// is `Lagging` if it lags by more blocks than the limit, and `Healthy` if
    /// not.
    /// Every other status stands, and without a limit every status does.
    pub open spec fn adjusted(self, lag: u64, unhealthy_lag: Option<u64>) -> StatusView {
        match (self, unhealthy_lag) {
            (StatusView::Healthy, Some(limit)) | (StatusView::Lagging, Some(limit)) => {
                if lag > limit {
                    StatusView::Lagging
                } else {
                    StatusView::Healthy
                }
            },
            (status, _) => status,
        }
    }
}

impl Status {
    /// The status that the report gives under the name `label`.
    pub fn from_label(label: String) -> (status: Status)
        ensures
            status@ == StatusView::from_label(label@),
    {
        if label == String::from_str("OK") {
            Status::Healthy
        } else if label == String::from_str("LAGGING") {
            Status::Lagging
        } else if label == String::from_str("UNAVAILABLE") {
            Status::Unavailable
        } else {
            Status::Other(label)
        }
    }

    /// The name of the status.
    pub fn label(&self) -> (label: String)
        ensures
            label@ == self@.label(),
    {
        match self {
            Status::Healthy => String::from_str("OK"),
            Status::Lagging => String::from_str("LAGGING"),
            Status::Unavailable => String::from_str("UNAVAILABLE"),
            Status::Other(name) => name.clone(),
        }
    }

    /// The HTTP status code that the status is reported with.
    pub fn http_status_code(&self) -> (code: u16)
        ensures
            code == self@.http_status_code(),
    {
        match self {
            Status::Healthy => 200,
            _ => 503,
        }
    }

    /// The status after the lag has been held against the limit.
    pub fn adjusted(self, lag: u64, unhealthy_lag: Option<u64>) -> (status: Status)
        ensures
            status@ == self@.adjusted(lag, unhealthy_lag),
    {
        match unhealthy_lag {
            Some(limit) => match self {
                Status::Healthy | Status::Lagging => if lag > limit {
                    Status::Lagging
                } else {
                    Status::Healthy
                },
                status => status,
            },
            None => self,
        }
    }
}

/// Why the report does not tell the health of the node.
#[derive(Clone, Copy, Debug, PartialEq, Eq)]
pub enum HealthError {
    /// The name of the node does not make a pattern to search for.
    InvalidPattern,
    /// The line that names the node gives no status.
    MissingStatus,
    /// The line that names the node gives no lag.
    MissingLag,
    /// The lag is no number of 64 bits.
    InvalidLag(NumberError),
    /// No line names the node.
    NotFound,
}

impl HealthError {
    /// The error in words.
    pub open spec fn description(self) -> Seq<char> {
        match self {
            HealthError::InvalidPattern => "the node id does not make a regular expression"@,
            HealthError::MissingStatus => "missing status capture group"@,
            HealthError::MissingLag => "missing lag capture group"@,
            HealthError::InvalidLag(e) => e.description(),
            HealthError::NotFound =>
                "regex could not find the node lag within dshackle's detailed health endpoint"@,
        }
    }

    /// The error in words.
    pub fn describe(&self) -> (text: String)
        ensures
            text@ == self.description(),
    {
        let text = match self {
            HealthError::InvalidLag(e) => {
                return e.describe();
            },
            HealthError::InvalidPattern => "the node id does not make a regular expression",
            HealthError::MissingStatus => "missing status capture group",
            HealthError::MissingLag => "missing lag capture group",
            HealthError::NotFound =>
                "regex could not find the node lag within dshackle's detailed health endpoint",
        };
        String::from_str(text)
    }
}

/// The mathematical value of what a report tells.
pub open spec fn outcome_view(outcome: Result<(Status, u64), HealthError>) -> Result<
    (StatusView, u64),
    HealthError,
> {
    match outcome {
        Ok((status, lag)) => Ok((status@, lag)),
        Err(e) => Err(e),
    }
}

/// The lines of a text: what stands before, between and after its line
/// feeds. A text without a line feed is one line, the empty text too.
pub open spec fn lines(text: Seq<char>) -> Seq<Seq<char>>
    decreases text.len(),
{
    if text.len() == 0 {
        seq![Seq::empty()]
    } else {
        let before = lines(text.drop_last());
        if text.last() == '\n' {
            before.push(Seq::empty())
        } else {
            before.drop_last().push(before.last().push(text.last()))
        }
    }
}

/// Cuts a text into its lines.
pub fn split_lines(text: &str) -> (found: Vec<&str>)
    ensures
        found@.map_values(|line: &str| line@) == lines(text@),
{
    let len: usize = text.unicode_len();
    let mut found: Vec<&str> = Vec::new();
    let mut start: usize = 0;
    let mut i: usize = 0;
    proof {
        assert(text@.take(0) =~= Seq::<char>::empty());
        assert(lines(text@.take(0)) =~= found@.map_values(|line: &str| line@).push(
            text@.subrange(0, 0),
        ));
    }
    for c in it: text.chars()
        invariant
            it.seq() == text@,
            len == text@.len(),
            i == it.index(),
            start <= i,
            lines(text@.take(i as int)) == found@.map_values(|line: &str| line@).push(
                text@.subrange(start as int, i as int),
            ),
    {
        let ghost open = text@.subrange(start as int, i as int);
        proof {
            assert(text@.take(i + 1).drop_last() =~= text@.take(i as int));
        }
        if c == '\n' {
            found.push(text.substring_char(start, i));
            start = i + 1;
            proof {
                assert(text@.subrange(start as int, i + 1) =~= Seq::<char>::empty());
            }
        } else {
            proof {
                assert(text@.subrange(start as int, i + 1) =~= open.push(c));
            }
        }
        i = i + 1;
    }
    found.push(text.substring_char(start, i));
    proof {
        assert(text@.take(i as int) =~= text@);
    }
    found
}

/// What the capture groups of the line that names the node tell: the second
/// group is the status, the third the lag in decimal digits, and the status
/// is held against the limit.
pub open spec fn reading(groups: Seq<Option<Seq<char>>>, unhealthy_lag: Option<u64>) -> Result<
    (StatusView, u64),
    HealthError,
> {
    if groups.len() < 2 || groups[1] is None {
        Err(HealthError::MissingStatus)
    } else if groups.len() < 3 || groups[2] is None {
        Err(HealthError::MissingLag)
    } else {
        match parse(groups[2].unwrap(), 10) {
            Ok(lag) => Ok(
                (StatusView::from_label(groups[1].unwrap()).adjusted(lag, unhealthy_lag), lag),
            ),
            Err(e) => Err(HealthError::InvalidLag(e)),
        }
    }
}

/// Reads the status and the lag of the node out of the capture groups of the
/// line that names it.
pub fn read_captures(groups: &Vec<Option<String>>, unhealthy_lag: Option<u64>) -> (r: Result<
    (Status, u64),
    HealthError,
>)
    ensures
        outcome_view(r) == reading(groups.deep_view(), unhealthy_lag),
{
    proof {
        assert forall|i: int| 0 <= i < groups.len() implies #[trigger] groups.deep_view()[i]
            == groups[i].deep_view() by {}
    }
    if groups.len() < 2 {
        return Err(HealthError::MissingStatus);
    }
    let label = match &groups[1] {
        Some(label) => label.clone(),
        None => {
            return Err(HealthError::MissingStatus);
        },
    };
    if groups.len() < 3 {
        return Err(HealthError::MissingLag);
    }
    let lag = match &groups[2] {
        Some(digits) => match parse_decimal(digits.as_str()) {
            Ok(lag) => lag,
            Err(e) => {
                return Err(HealthError::InvalidLag(e));
            },
        },
        None => {
            return Err(HealthError::MissingLag);
        },
    };
    Ok((Status::from_label(label).adjusted(lag, unhealthy_lag), lag))
}

/// What `lines` tell of the node that `regex` finds: the first line in which
/// the regular expression finds a match decides, by its capture groups.
pub open spec fn scan(
    regex: regex::Regex,
    lines: Seq<Seq<char>>,
    unhealthy_lag: Option<u64>,
) -> Result<(StatusView, u64), HealthError>
    decreases lines.len(),
{
    if lines.len() == 0 {
        Err(HealthError::NotFound)
    } else {
        match regex_captures(regex, lines[0]) {
            Some(groups) => reading(groups, unhealthy_lag),
            None => scan(regex, lines.skip(1), unhealthy_lag),
        }
    }
}

/// Goes through the lines of `report` and reads the health of the node out
/// of the first line in which `regex` finds a match.
pub fn scan_report(regex: &regex::Regex, report: &str, unhealthy_lag: Option<u64>) -> (r: Result<
    (Status, u64),
    HealthError,
>)
    ensures
        outcome_view(r) == scan(*regex, lines(report@), unhealthy_lag),
{
    let found = split_lines(report);
    let ghost all = lines(report@);
    let mut i: usize = 0;
    proof {
        assert(all.skip(0) =~= all);
    }
    while i < found.len()
        invariant
            i <= found.len(),
            all == lines(report@),
            found@.map_values(|line: &str| line@) == all,
            scan(*regex, all, unhealthy_lag) == scan(*regex, all.skip(i as int), unhealthy_lag),
        decreases found.len() - i,
    {
        proof {
            assert(all.skip(i as int).skip(1) =~= all.skip(i + 1));
        }
        match captures(regex, found[i]) {
            Some(groups) => {
                return read_captures(&groups, unhealthy_lag);
            },
            None => {},
        }
        i = i + 1;
    }
    Err(HealthError::NotFound)
}

/// The pattern by which the line that names the node `node_id` is found.
pub open spec fn pattern_for(node_id: Seq<char>) -> Seq<char> {
    node_id + " (.*) with lag=(.*)"@
}

/// Reads the health of the node that `args` names out of `report`.
///
/// The name of the node is part of the pattern that is searched for, so it
/// is read as a regular expression. Where the pattern does not compile, the
/// outcome is `InvalidPattern`; which patterns compile is for the `regex`
/// crate to say, on the machine at hand, and is not stated here. Else the
/// outcome is what [`scan`] gives for a regular expression made of the
/// pattern.
pub fn is_healthy(args: &Arguments, report: &str) -> (r: Result<(Status, u64), HealthError>)
    ensures
        r == Err::<(Status, u64), HealthError>(HealthError::InvalidPattern) || exists|
            regex: regex::Regex,
        |
            regex_pattern(regex) == pattern_for(args.node_id@) && outcome_view(r)
                == #[trigger] scan(regex, lines(report@), args.unhealthy_lag),
{
    let mut pattern = args.node_id.clone();
    pattern.append(" (.*) with lag=(.*)");
    match compile(pattern.as_str()) {
        Ok(regex) => scan_report(&regex, report, args.unhealthy_lag),
        Err(_) => Err(HealthError::InvalidPattern),
    }
}

/// The answer to a health probe.
#[derive(Debug, PartialEq, Eq)]
pub struct HealthReply(pub Result<(Status, u64), HealthError>);

/// The body of the answer for a node of the state `status` that lags by
/// `lag` blocks: the name of the status, and the lag in decimal digits
/// between round brackets.
pub open spec fn health_text(status: StatusView, lag: u64) -> Seq<char> {
    status.label() + seq!['('] + digits_of(lag as nat, 10) + seq![')']
}

impl HealthReply {
    /// The HTTP status code and the body of the answer.
    ///
    /// Where the health of the node was read, the code is that of its status
    /// and the body is as `health_text` says. Where it was not, the code is
    /// 500 and the body is the description of the error.
    pub fn into_response(self) -> (response: (u16, String))
        ensures
            match self.0 {
                Ok((status, lag)) => response.0 == status@.http_status_code() && response.1@
                    == health_text(status@, lag),
                Err(e) => response.0 == 500 && response.1@ == e.description(),
            },
    {
        match self.0 {
            Ok((status, lag)) => {
                let mut body = status.label();
                proof {
                    reveal_strlit("(");
                    reveal_strlit(")");
                }
                body.append("(");
                write_decimal(&mut body, lag);
                body.append(")");
                (status.http_status_code(), body)
            },
            Err(e) => (500, e.describe()),
        }
    }
}

} // verus!
