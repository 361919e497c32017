use vstd::prelude::*;

verus! {

/// Lifecycle state shared by jobs and payloads.
#[derive(Debug, Clone, Copy, PartialEq, Eq, Structural)]
pub enum Status {
    Pending,
    Processing,
    Completed,
    Failed,
    Invalid,
    Queued,
    Submitted,
    Unknown,
    Cleaned,
    Prepared,
}

/// ASCII case folding of one character, as a code point.
pub open spec fn fold_code(c: char) -> u32 {
    if 'A' <= c && c <= 'Z' {
        (c as u32 + 32) as u32
    } else {
        c as u32
    }
}

/// Two texts that differ at most in the ASCII case of their letters.
pub open spec fn eq_ignore_ascii_case(a: Seq<char>, b: Seq<char>) -> bool {
    &&& a.len() == b.len()
    &&& forall|i: int| 0 <= i < a.len() ==> #[trigger] fold_code(a[i]) == fold_code(b[i])
}

/// The lowercase wire and storage form of a status.
pub open spec fn status_name(s: Status) -> Seq<char> {
    match s {
        Status::Pending => "pending"@,
        Status::Prepared => "prepared"@,
        Status::Processing => "processing"@,
        Status::Completed => "completed"@,
        Status::Failed => "failed"@,
        Status::Invalid => "invalid"@,
        Status::Queued => "queued"@,
        Status::Submitted => "submitted"@,
        Status::Unknown => "unknown"@,
        Status::Cleaned => "cleaned"@,
    }
}

/// The status a token denotes, in any case; anything unrecognised is `Unknown`.
pub open spec fn parse_status(t: Seq<char>) -> Status {
    if eq_ignore_ascii_case(t, "pending"@) {
        Status::Pending
    } else if eq_ignore_ascii_case(t, "processing"@) {
        Status::Processing
    } else if eq_ignore_ascii_case(t, "completed"@) {
        Status::Completed
    } else if eq_ignore_ascii_case(t, "failed"@) {
        Status::Failed
    } else if eq_ignore_ascii_case(t, "invalid"@) {
        Status::Invalid
    } else if eq_ignore_ascii_case(t, "queued"@) {
        Status::Queued
    } else if eq_ignore_ascii_case(t, "submitted"@) {
        Status::Submitted
    } else if eq_ignore_ascii_case(t, "cleaned"@) {
        Status::Cleaned
    } else if eq_ignore_ascii_case(t, "prepared"@) {
        Status::Prepared
    } else {
        Status::Unknown
    }
}

fn fold_char(c: char) -> (r: u32)
    ensures
        r == fold_code(c),
{
    if 'A' <= c && c <= 'Z' {
        c as u32 + 32
    } else {
        c as u32
    }
}

/// Compares `s` with `word`, ignoring the ASCII case of letters.
pub fn equals_ignore_ascii_case(s: &str, word: &str) -> (r: bool)
    ensures
        r == eq_ignore_ascii_case(s@, word@),
{
    let n = s.unicode_len();
    let m = word.unicode_len();
    if n != m {
        return false;
    }
    let mut i: usize = 0;
    while i < n
        invariant
            n == s@.len(),
            m == word@.len(),
            n == m,
            i <= n,
            forall|j: int| 0 <= j < i ==> #[trigger] fold_code(s@[j]) == fold_code(word@[j]),
        decreases n - i,
    {
        let a = s.get_char(i);
        let b = word.get_char(i);
        if fold_char(a) != fold_char(b) {
            assert(fold_code(s@[i as int]) != fold_code(word@[i as int]));
            return false;
        }
        i += 1;
    }
    true
}

impl Status {
    /// The lowercase name of the status.
    pub fn as_str(&self) -> (r: &'static str)
        ensures
            r@ == status_name(*self),
    {
        match self {
            Status::Pending => "pending",
            Status::Prepared => "prepared",
            Status::Processing => "processing",
            Status::Completed => "completed",
            Status::Failed => "failed",
            Status::Invalid => "invalid",
            Status::Queued => "queued",
            Status::Submitted => "submitted",
            Status::Unknown => "unknown",
            Status::Cleaned => "cleaned",
        }
    }

    /// The lowercase name of the status, owned.
    pub fn to_string(&self) -> (r: String)
        ensures
            r@ == status_name(*self),
    {
        String::from_str(self.as_str())
    }

    /// Parses a status name in any letter case; unrecognised text gives `Unknown`.
    pub fn from_string(s: &str) -> (r: Status)
        ensures
            r == parse_status(s@),
    {
        if equals_ignore_ascii_case(s, "pending") {
            Status::Pending
        } else if equals_ignore_ascii_case(s, "processing") {
            Status::Processing
        } else if equals_ignore_ascii_case(s, "completed") {
            Status::Completed
        } else if equals_ignore_ascii_case(s, "failed") {
            Status::Failed
        } else if equals_ignore_ascii_case(s, "invalid") {
            Status::Invalid
        } else if equals_ignore_ascii_case(s, "queued") {
            Status::Queued
        } else if equals_ignore_ascii_case(s, "submitted") {
            Status::Submitted
        } else if equals_ignore_ascii_case(s, "cleaned") {
            Status::Cleaned
        } else if equals_ignore_ascii_case(s, "prepared") {
            Status::Prepared
        } else {
            Status::Unknown
        }
    }
}

/// Parsing the name of a status, in any letter case, gives that status back.
pub proof fn lemma_status_round_trip(s: Status, t: Seq<char>)
    requires
        eq_ignore_ascii_case(t, status_name(s)),
    ensures
        parse_status(status_name(s)) == s,
        parse_status(t) == s,
{
    reveal_strlit("pending");
    reveal_strlit("prepared");
    reveal_strlit("processing");
    reveal_strlit("completed");
    reveal_strlit("failed");
    reveal_strlit("invalid");
    reveal_strlit("queued");
    reveal_strlit("submitted");
    reveal_strlit("unknown");
    reveal_strlit("cleaned");
    assert(fold_code(t[0]) == fold_code(status_name(s)[0]));
    assert(fold_code(t[1]) == fold_code(status_name(s)[1]));
}

} // verus!
