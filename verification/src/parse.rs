//! Parsing of an HTTP/1.1 request head.
//!
//! The head is `METHOD SP PATH SP VERSION CRLF`, followed by header lines
//! (`name: value CRLF` each), terminated by an empty line (`CRLF`). The
//! grammar is given as a byte-at-a-time state machine, `run`, and the
//! executable parser is proved to return exactly what `run` says.
//!
//! The method is one or more token bytes; the path is one or more visible
//! ASCII bytes and starts with `/`; the version is one or more visible
//! ASCII bytes and is not otherwise validated. A buffer that ends before
//! the head is complete parses as `Incomplete`; a byte that fits no rule
//! of the grammar makes it `Malformed`.

use vstd::prelude::*;

verus! {

/// Why a request could not be handled as parsed input.
#[derive(Clone, Copy, Debug, PartialEq, Eq, Structural)]
pub enum ParseError {
    /// The buffer ended before the head was complete.
    Incomplete,
    /// A byte fits no rule of the head grammar.
    Malformed,
    /// A request body that must be UTF-8 is not.
    InvalidEncoding,
}

/// Token bytes, allowed in a method and in a header name.
pub open spec fn is_tchar(b: u8) -> bool {
    ||| b == 33
    ||| 35 <= b <= 39
    ||| b == 42
    ||| b == 43
    ||| b == 45
    ||| b == 46
    ||| 48 <= b <= 57
    ||| 65 <= b <= 90
    ||| 94 <= b <= 122
    ||| b == 124
    ||| b == 126
}

/// Visible ASCII bytes, allowed in a path and in a version.
pub open spec fn is_vchar(b: u8) -> bool {
    33 <= b <= 126
}

/// Bytes allowed in a header value: printable ASCII, space, or horizontal tab.
pub open spec fn is_value_char(b: u8) -> bool {
    b == 9 || 32 <= b <= 126
}

/// Tests whether `b` is a token byte.
pub fn tchar(b: u8) -> (r: bool)
    ensures
        r == is_tchar(b),
{
    b == 33 || (35 <= b && b <= 39) || b == 42 || b == 43 || b == 45 || b == 46 || (48 <= b
        && b <= 57) || (65 <= b && b <= 90) || (94 <= b && b <= 122) || b == 124 || b == 126
}

/// Tests whether `b` is a visible ASCII byte.
pub fn vchar(b: u8) -> (r: bool)
    ensures
        r == is_vchar(b),
{
    33 <= b && b <= 126
}

/// Tests whether `b` may stand in a header value.
pub fn value_char(b: u8) -> (r: bool)
    ensures
        r == is_value_char(b),
{
    b == 9 || (32 <= b && b <= 126)
}

/// Where in the head grammar the scan stands.
#[derive(Clone, Copy)]
pub enum Phase {
    /// Inside the method, which starts at offset 0.
    InMethod,
    /// Inside the path.
    InPath,
    /// Inside the version.
    InVersion,
    /// After the CR that ends the request line; an LF is owed.
    LineLf,
    /// At the start of a header line, or of the final empty line.
    HeadStart,
    /// After the CR of the final empty line; an LF is owed.
    BlankLf,
    /// Inside a header name.
    InName,
    /// Inside a header value.
    InValue,
    /// After the CR that ends a header line; an LF is owed.
    FieldLf,
}

/// The scan state: the phase and the boundaries found so far. The method
/// ends at `m_end`, the path spans `p_start..p_end`; each field is
/// meaningful only once its phase is past.
pub struct Machine {
    pub phase: Phase,
    pub m_end: int,
    pub p_start: int,
    pub p_end: int,
}

/// A successfully parsed head: the method and path bytes, and the offset
/// `end` just past the final empty line, where the body starts.
pub struct SpecHead {
    pub method: Seq<u8>,
    pub path: Seq<u8>,
    pub end: int,
}

/// What parsing a buffer yields.
pub enum SpecParse {
    Head(SpecHead),
    Fail(ParseError),
}

/// Runs the head grammar over `s` from offset `i` in state `m`.
pub open spec fn run(s: Seq<u8>, i: int, m: Machine) -> SpecParse
    decreases s.len() - i,
{
    if i >= s.len() {
        SpecParse::Fail(ParseError::Incomplete)
    } else {
        let b = s[i];
        match m.phase {
            Phase::InMethod => {
                if is_tchar(b) {
                    run(s, i + 1, m)
                } else if b == 32 && i > 0 {
                    run(s, i + 1, Machine { phase: Phase::InPath, m_end: i, p_start: i + 1, ..m })
                } else {
                    SpecParse::Fail(ParseError::Malformed)
                }
            },
            Phase::InPath => {
                if i == m.p_start {
                    if b == 47 {
                        run(s, i + 1, m)
                    } else {
                        SpecParse::Fail(ParseError::Malformed)
                    }
                } else if is_vchar(b) {
                    run(s, i + 1, m)
                } else if b == 32 {
                    run(s, i + 1, Machine { phase: Phase::InVersion, p_end: i, ..m })
                } else {
                    SpecParse::Fail(ParseError::Malformed)
                }
            },
            Phase::InVersion => {
                if is_vchar(b) {
                    run(s, i + 1, m)
                } else if b == 13 && i > m.p_end + 1 {
                    run(s, i + 1, Machine { phase: Phase::LineLf, ..m })
                } else {
                    SpecParse::Fail(ParseError::Malformed)
                }
            },
            Phase::LineLf => {
                if b == 10 {
                    run(s, i + 1, Machine { phase: Phase::HeadStart, ..m })
                } else {
                    SpecParse::Fail(ParseError::Malformed)
                }
            },
            Phase::HeadStart => {
                if b == 13 {
                    run(s, i + 1, Machine { phase: Phase::BlankLf, ..m })
                } else if is_tchar(b) {
                    run(s, i + 1, Machine { phase: Phase::InName, ..m })
                } else {
                    SpecParse::Fail(ParseError::Malformed)
                }
            },
            Phase::BlankLf => {
                if b == 10 {
                    SpecParse::Head(
                        SpecHead {
                            method: s.subrange(0, m.m_end),
                            path: s.subrange(m.p_start, m.p_end),
                            end: i + 1,
                        },
                    )
                } else {
                    SpecParse::Fail(ParseError::Malformed)
                }
            },
            Phase::InName => {
                if is_tchar(b) {
                    run(s, i + 1, m)
                } else if b == 58 {
                    run(s, i + 1, Machine { phase: Phase::InValue, ..m })
                } else {
                    SpecParse::Fail(ParseError::Malformed)
                }
            },
            Phase::InValue => {
                if is_value_char(b) {
                    run(s, i + 1, m)
                } else if b == 13 {
                    run(s, i + 1, Machine { phase: Phase::FieldLf, ..m })
                } else {
                    SpecParse::Fail(ParseError::Malformed)
                }
            },
            Phase::FieldLf => {
                if b == 10 {
                    run(s, i + 1, Machine { phase: Phase::HeadStart, ..m })
                } else {
                    SpecParse::Fail(ParseError::Malformed)
                }
            },
        }
    }
}

/// The initial scan state.
pub open spec fn init_machine() -> Machine {
    Machine { phase: Phase::InMethod, m_end: 0, p_start: 0, p_end: 0 }
}

/// What parsing the whole buffer `s` yields.
pub open spec fn spec_parse(s: Seq<u8>) -> SpecParse {
    run(s, 0, init_machine())
}

/// A parsed request head: the method and path bytes, and the offset into
/// the raw buffer where the body starts.
pub struct ParsedRequest {
    pub method: Vec<u8>,
    pub path: Vec<u8>,
    pub body_start: usize,
}

/// Positions already fixed by the scan are consistent and lie behind `i`.
pub open spec fn machine_wf(m: Machine, i: int) -> bool {
    match m.phase {
        Phase::InMethod => true,
        Phase::InPath => 0 < m.m_end && m.p_start == m.m_end + 1 && m.p_start <= i,
        _ => 0 < m.m_end && m.p_start == m.m_end + 1 && m.p_start < m.p_end && m.p_end < i,
    }
}

/// Parses the head of the raw request buffer `s`, returning exactly what
/// the grammar `spec_parse` yields on it.
pub fn parse_request(s: &[u8]) -> (r: Result<ParsedRequest, ParseError>)
    ensures
        match r {
            Ok(pr) => {
                &&& spec_parse(s@) matches SpecParse::Head(h)
                &&& pr.method@ == h.method
                &&& pr.path@ == h.path
                &&& pr.body_start == h.end
                &&& pr.body_start <= s@.len()
            },
            Err(e) => spec_parse(s@) == SpecParse::Fail(e),
        },
{
    let mut i: usize = 0;
    let mut phase = Phase::InMethod;
    let mut m_end: usize = 0;
    let mut p_start: usize = 0;
    let mut p_end: usize = 0;
    while i < s.len()
        invariant
            i <= s@.len(),
            machine_wf(
                Machine {
                    phase: phase,
                    m_end: m_end as int,
                    p_start: p_start as int,
                    p_end: p_end as int,
                },
                i as int,
            ),
            run(
                s@,
                i as int,
                Machine {
                    phase: phase,
                    m_end: m_end as int,
                    p_start: p_start as int,
                    p_end: p_end as int,
                },
            ) == spec_parse(s@),
        decreases s@.len() - i,
    {
        let b = s[i];
        match phase {
            Phase::InMethod => {
                if tchar(b) {
                } else if b == 32 && i > 0 {
                    phase = Phase::InPath;
                    m_end = i;
                    p_start = i + 1;
                } else {
                    return Err(ParseError::Malformed);
                }
            },
            Phase::InPath => {
                if i == p_start {
                    if b != 47 {
                        return Err(ParseError::Malformed);
                    }
                } else if vchar(b) {
                } else if b == 32 {
                    phase = Phase::InVersion;
                    p_end = i;
                } else {
                    return Err(ParseError::Malformed);
                }
            },
            Phase::InVersion => {
                if vchar(b) {
                } else if b == 13 && i > p_end + 1 {
                    phase = Phase::LineLf;
                } else {
                    return Err(ParseError::Malformed);
                }
            },
            Phase::LineLf => {
                if b == 10 {
                    phase = Phase::HeadStart;
                } else {
                    return Err(ParseError::Malformed);
                }
            },
            Phase::HeadStart => {
                if b == 13 {
                    phase = Phase::BlankLf;
                } else if tchar(b) {
                    phase = Phase::InName;
                } else {
                    return Err(ParseError::Malformed);
                }
            },
            Phase::BlankLf => {
                if b == 10 {
                    let method = vstd::slice::slice_to_vec(&s[0..m_end]);
                    let path = vstd::slice::slice_to_vec(&s[p_start..p_end]);
                    return Ok(ParsedRequest { method, path, body_start: i + 1 });
                } else {
                    return Err(ParseError::Malformed);
                }
            },
            Phase::InName => {
                if tchar(b) {
                } else if b == 58 {
                    phase = Phase::InValue;
                } else {
                    return Err(ParseError::Malformed);
                }
            },
            Phase::InValue => {
                if value_char(b) {
                } else if b == 13 {
                    phase = Phase::FieldLf;
                } else {
                    return Err(ParseError::Malformed);
                }
            },
            Phase::FieldLf => {
                if b == 10 {
                    phase = Phase::HeadStart;
                } else {
                    return Err(ParseError::Malformed);
                }
            },
        }
        i += 1;
    }
    Err(ParseError::Incomplete)
}

} // verus!
