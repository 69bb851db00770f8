//! The `function` string of an envelope: its first two whitespace-separated
//! words name the operation and the target.
use vstd::prelude::*;
use crate::error::{ApiError, Problem};
use crate::request::Request;

verus! {

/// What a request does.
#[derive(Clone, Copy, Debug, PartialEq, Eq, Structural)]
pub enum Operation {
    Create,
    Read,
    Update,
    Delete,
    Verify,
}

/// What a request acts on.
#[derive(Clone, Copy, Debug, PartialEq, Eq, Structural)]
pub enum Target {
    Conversations,
    Messages,
    Users,
}

/// The characters that `char::is_ascii_whitespace` accepts.
pub open spec fn is_ascii_ws(c: char) -> bool {
    c == ' ' || c == '\t' || c == '\n' || c == '\x0C' || c == '\r'
}

/// The first position at or after `i` that holds no whitespace (or the end).
pub open spec fn skip_ws(s: Seq<char>, i: int) -> int
    decreases s.len() - i,
{
    if i < 0 || i >= s.len() {
        i
    } else if is_ascii_ws(s[i]) {
        skip_ws(s, i + 1)
    } else {
        i
    }
}

/// The first position at or after `i` that holds whitespace (or the end).
pub open spec fn word_end(s: Seq<char>, i: int) -> int
    decreases s.len() - i,
{
    if i < 0 || i >= s.len() {
        i
    } else if is_ascii_ws(s[i]) {
        i
    } else {
        word_end(s, i + 1)
    }
}

/// The first two whitespace-separated words of `s`, where it has two; any
/// words after them are ignored.
pub open spec fn first_two_words(s: Seq<char>) -> Option<(Seq<char>, Seq<char>)> {
    let a1 = skip_ws(s, 0);
    let b1 = word_end(s, a1);
    let a2 = skip_ws(s, b1);
    let b2 = word_end(s, a2);
    if a2 < s.len() {
        Some((s.subrange(a1, b1), s.subrange(a2, b2)))
    } else {
        None
    }
}

/// The operation that a word names.
pub open spec fn operation_of(w: Seq<char>) -> Option<Operation> {
    if w == "VERIFY"@ {
        Some(Operation::Verify)
    } else if w == "CREATE"@ {
        Some(Operation::Create)
    } else if w == "READ"@ {
        Some(Operation::Read)
    } else if w == "UPDATE"@ {
        Some(Operation::Update)
    } else if w == "DELETE"@ {
        Some(Operation::Delete)
    } else {
        None
    }
}

/// The target that a word names.
pub open spec fn target_of(w: Seq<char>) -> Option<Target> {
    if w == "CONVERSATIONS"@ {
        Some(Target::Conversations)
    } else if w == "MESSAGES"@ {
        Some(Target::Messages)
    } else if w == "USERS"@ {
        Some(Target::Users)
    } else {
        None
    }
}

/// What a `function` string asks for: its first word names the operation,
/// its second the target.
pub open spec fn classify(s: Seq<char>) -> Result<(Operation, Target), ApiError> {
    match first_two_words(s) {
        None => Err(ApiError::InvalidRequest(Problem::BadFunction)),
        Some((o, t)) => match operation_of(o) {
            None => Err(ApiError::InvalidRequest(Problem::UnknownOperation)),
            Some(op) => match target_of(t) {
                None => Err(ApiError::InvalidRequest(Problem::UnknownTarget)),
                Some(tg) => Ok((op, tg)),
            },
        },
    }
}

proof fn lemma_word_end_run(s: Seq<char>, i: int, j: int)
    requires
        0 <= i <= j <= s.len(),
        forall|k: int| i <= k < j ==> !is_ascii_ws(#[trigger] s[k]),
        j == s.len() || is_ascii_ws(s[j]),
    ensures
        word_end(s, i) == j,
    decreases j - i,
{
    if i < j {
        lemma_word_end_run(s, i + 1, j);
    }
}

/// A `function` string made of a word without whitespace, one space and a
/// second such word classifies as the operation and the target that the
/// words name: it succeeds exactly when both words belong to the closed
/// enumerations, and otherwise fails with `InvalidRequest`, naming the
/// first word that is unknown.
pub proof fn lemma_classify_two_words(op: Seq<char>, target: Seq<char>)
    requires
        op.len() > 0,
        target.len() > 0,
        forall|k: int| 0 <= k < op.len() ==> !is_ascii_ws(#[trigger] op[k]),
        forall|k: int| 0 <= k < target.len() ==> !is_ascii_ws(#[trigger] target[k]),
    ensures
        classify(op + seq![' '] + target) == (match (operation_of(op), target_of(target)) {
            (Some(o), Some(t)) => Ok((o, t)),
            (None, _) => Err(ApiError::InvalidRequest(Problem::UnknownOperation)),
            (Some(_), None) => Err(ApiError::InvalidRequest(Problem::UnknownTarget)),
        }),
        (classify(op + seq![' '] + target) is Ok) == (operation_of(op) is Some && target_of(
            target,
        ) is Some),
{
    let s = op + seq![' '] + target;
    let n = op.len() as int;
    assert(s[0] == op[0]);
    assert(skip_ws(s, 0) == 0);
    assert forall|k: int| 0 <= k < n implies !is_ascii_ws(#[trigger] s[k]) by {
        assert(s[k] == op[k]);
    }
    lemma_word_end_run(s, 0, n);
    assert(s[n] == ' ');
    assert(s[n + 1] == target[0]);
    assert(skip_ws(s, n + 1) == n + 1);
    assert(skip_ws(s, n) == n + 1);
    assert forall|k: int| n + 1 <= k < s.len() implies !is_ascii_ws(#[trigger] s[k]) by {
        assert(s[k] == target[k - n - 1]);
    }
    lemma_word_end_run(s, n + 1, s.len() as int);
    assert(s.subrange(0, n) =~= op);
    assert(s.subrange(n + 1, s.len() as int) =~= target);
}

fn is_ascii_ws_char(c: char) -> (r: bool)
    ensures
        r == is_ascii_ws(c),
{
    c == ' ' || c == '\t' || c == '\n' || c == '\x0C' || c == '\r'
}

pub(crate) fn skip_ws_from(s: &str, n: usize, i: usize) -> (j: usize)
    requires
        n == s@.len(),
        i <= n,
    ensures
        j == skip_ws(s@, i as int),
        i <= j <= n,
{
    let mut j = i;
    while j < n && is_ascii_ws_char(s.get_char(j))
        invariant
            n == s@.len(),
            i <= j <= n,
            skip_ws(s@, j as int) == skip_ws(s@, i as int),
        decreases n - j,
    {
        j += 1;
    }
    j
}

pub(crate) fn word_end_from(s: &str, n: usize, i: usize) -> (j: usize)
    requires
        n == s@.len(),
        i <= n,
    ensures
        j == word_end(s@, i as int),
        i <= j <= n,
{
    let mut j = i;
    while j < n && !is_ascii_ws_char(s.get_char(j))
        invariant
            n == s@.len(),
            i <= j <= n,
            word_end(s@, j as int) == word_end(s@, i as int),
        decreases n - j,
    {
        j += 1;
    }
    j
}

/// Whether `w` is exactly the word `lit`.
pub(crate) fn word_is(w: &str, lit: &str) -> (r: bool)
    ensures
        r == (w@ == lit@),
{
    let n = w.unicode_len();
    if n != lit.unicode_len() {
        return false;
    }
    let mut i: usize = 0;
    while i < n
        invariant
            n == w@.len(),
            n == lit@.len(),
            i <= n,
            forall|k: int| 0 <= k < i ==> w@[k] == lit@[k],
        decreases n - i,
    {
        if w.get_char(i) != lit.get_char(i) {
            return false;
        }
        i += 1;
    }
    assert(w@ =~= lit@);
    true
}

/// The operation that a word names, if any.
pub fn parse_operation(w: &str) -> (r: Option<Operation>)
    ensures
        r == operation_of(w@),
{
    if word_is(w, "VERIFY") {
        Some(Operation::Verify)
    } else if word_is(w, "CREATE") {
        Some(Operation::Create)
    } else if word_is(w, "READ") {
        Some(Operation::Read)
    } else if word_is(w, "UPDATE") {
        Some(Operation::Update)
    } else if word_is(w, "DELETE") {
        Some(Operation::Delete)
    } else {
        None
    }
}

/// The target that a word names, if any.
pub fn parse_target(w: &str) -> (r: Option<Target>)
    ensures
        r == target_of(w@),
{
    if word_is(w, "CONVERSATIONS") {
        Some(Target::Conversations)
    } else if word_is(w, "MESSAGES") {
        Some(Target::Messages)
    } else if word_is(w, "USERS") {
        Some(Target::Users)
    } else {
        None
    }
}

/// The operation and the target that a `function` string names.
pub fn classify_function(function: &str) -> (r: Result<(Operation, Target), ApiError>)
    ensures
        r == classify(function@),
{
    match Request::split_function(function) {
        None => Err(ApiError::InvalidRequest(Problem::BadFunction)),
        Some((o, t)) => match parse_operation(o.as_str()) {
            None => Err(ApiError::InvalidRequest(Problem::UnknownOperation)),
            Some(op) => match parse_target(t.as_str()) {
                None => Err(ApiError::InvalidRequest(Problem::UnknownTarget)),
                Some(tg) => Ok((op, tg)),
            },
        },
    }
}

} // verus!
