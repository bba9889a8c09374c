use vstd::prelude::*;

verus! {

/// A per-command failure reported by the query engine.
pub enum EngineError {
    /// The source could not be read or its schema is invalid.
    Connect(String),
    /// The referenced dataset has no registration.
    NotFound(String),
    /// The query is malformed or semantically invalid.
    Query(String),
}

/// Marker that an engine diagnostic is about a missing dataset.
pub open spec fn not_found_marker() -> Seq<char> {
    "not found"@
}

/// `p` occurs in `s` starting at `i`.
pub open spec fn occurs_at(s: Seq<char>, p: Seq<char>, i: int) -> bool {
    0 <= i && i + p.len() <= s.len() && s.subrange(i, i + p.len()) == p
}

/// `p` occurs somewhere in `s`.
pub open spec fn occurs_in(s: Seq<char>, p: Seq<char>) -> bool {
    exists|i: int| occurs_at(s, p, i)
}

pub open spec fn error_text(e: EngineError) -> Seq<char> {
    match e {
        EngineError::Connect(m) => "Connect error: "@ + m@,
        EngineError::NotFound(m) => "Not found: "@ + m@,
        EngineError::Query(m) => "Query error: "@ + m@,
    }
}

/// The text delivered to the producer for an engine outcome: the rendered
/// result itself, or the rendered error.
pub open spec fn reply_text(outcome: Result<String, EngineError>) -> Seq<char> {
    match outcome {
        Ok(s) => s@,
        Err(e) => error_text(e),
    }
}

/// Whether `p` occurs in `s`.
pub fn contains_text(s: &str, p: &str) -> (r: bool)
    ensures
        r == occurs_in(s@, p@),
{
    let n = s.unicode_len();
    let m = p.unicode_len();
    if m > n {
        proof {
            assert forall|i: int| !occurs_at(s@, p@, i) by {}
        }
        return false;
    }
    if m == 0 {
        assert(s@.subrange(0, 0) =~= p@);
        assert(occurs_at(s@, p@, 0));
        return true;
    }
    let mut i: usize = 0;
    while i <= n - m
        invariant
            n == s@.len(),
            m == p@.len(),
            0 < m <= n,
            i <= n - m + 1,
            forall|k: int| 0 <= k < i ==> !occurs_at(s@, p@, k),
        decreases n - m + 1 - i,
    {
        let mut j: usize = 0;
        let mut same = true;
        while j < m
            invariant
                n == s@.len(),
                m == p@.len(),
                i + m <= n,
                j <= m,
                same ==> forall|t: int| 0 <= t < j ==> s@[i + t] == p@[t],
                !same ==> !occurs_at(s@, p@, i as int),
            decreases m - j,
        {
            if same && s.get_char(i + j) != p.get_char(j) {
                same = false;
                assert(s@.subrange(i as int, i + m)[j as int] != p@[j as int]);
            }
            j = j + 1;
        }
        if same {
            assert(s@.subrange(i as int, i + m) =~= p@);
            assert(occurs_at(s@, p@, i as int));
            return true;
        }
        i = i + 1;
    }
    proof {
        assert forall|k: int| !occurs_at(s@, p@, k) by {
            if 0 <= k && k + m <= n {
                assert(k < i);
            }
        }
    }
    false
}

impl EngineError {
    /// Classifies a diagnostic from a failed query: one that reports a missing
    /// dataset is `NotFound`, any other is a `Query` error carrying the text.
    pub fn from_diagnostic(message: String) -> (r: EngineError)
        ensures
            occurs_in(message@, not_found_marker()) ==> (r is NotFound && r->NotFound_0@ == message@),
            !occurs_in(message@, not_found_marker()) ==> (r is Query && r->Query_0@ == message@),
    {
        if contains_text(message.as_str(), "not found") {
            EngineError::NotFound(message)
        } else {
            EngineError::Query(message)
        }
    }

    /// The error as a line of text for the producer.
    pub fn render(&self) -> (r: String)
        ensures
            r@ == error_text(*self),
    {
        match self {
            EngineError::Connect(m) => String::from_str("Connect error: ").concat(m.as_str()),
            EngineError::NotFound(m) => String::from_str("Not found: ").concat(m.as_str()),
            EngineError::Query(m) => String::from_str("Query error: ").concat(m.as_str()),
        }
    }
}

/// Renders an engine outcome for delivery. A failed command still yields a
/// reply: the error text.
pub fn render_reply(outcome: Result<String, EngineError>) -> (r: String)
    ensures
        r@ == reply_text(outcome),
{
    match outcome {
        Ok(s) => s,
        Err(e) => e.render(),
    }
}

} // verus!
