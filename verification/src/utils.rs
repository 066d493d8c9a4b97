//! What a finished command means for the run, and what of its output may
//! reach the console.
//!
//! Nothing here starts a process. The caller runs the command, then hands over
//! its exit code and the standard output it captured; the functions below say
//! whether the run goes on and which bytes are to be printed.

use vstd::prelude::*;
use vstd::string::*;

verus! {

/// The byte that stands in for every byte of a masked secret: `X`.
pub const MASK: u8 = 0x58;

/// Whether the run goes on after a command has finished.
#[derive(Debug, Clone, Copy, PartialEq, Eq, Structural)]
pub enum Outcome {
    /// The command exited with code zero.
    Proceed,
    /// The command failed; the run ends at once with the same code.
    Abort(i32),
}

/// How the standard output of a command is treated.
#[derive(Debug, Clone, PartialEq, Eq)]
pub enum Stdout {
    /// The command writes to the console itself; nothing is captured.
    Inherit,
    /// The output is captured and handed to the caller; it is printed only
    /// when the command fails.
    Capture,
    /// The output is captured and printed with every occurrence of the given
    /// secret masked.
    Redact(String),
}

/// The model of [`Stdout`]: the secret is held as the characters it consists of.
pub enum StdoutView {
    Inherit,
    Capture,
    Redact(Seq<char>),
}

impl View for Stdout {
    type V = StdoutView;

    open spec fn view(&self) -> StdoutView {
        match self {
            Stdout::Inherit => StdoutView::Inherit,
            Stdout::Capture => StdoutView::Capture,
            Stdout::Redact(secret) => StdoutView::Redact(secret@),
        }
    }
}

/// What is to be printed after a command has finished, and how the run goes on.
#[derive(Debug, Clone, PartialEq, Eq)]
pub struct Report {
    /// The bytes to write to the console, in full and unchanged.
    pub console: Vec<u8>,
    pub outcome: Outcome,
}

/// The outcome that belongs to an exit code.
pub open spec fn outcome_of(code: i32) -> Outcome {
    if code == 0 {
        Outcome::Proceed
    } else {
        Outcome::Abort(code)
    }
}

/// `token` stands in `text` at index `at`.
pub open spec fn occurs_at(text: Seq<u8>, token: Seq<u8>, at: int) -> bool {
    0 <= at && at + token.len() <= text.len() && text.subrange(at, at + token.len()) == token
}

/// Index `i` of `text` lies inside some occurrence of `token`.
pub open spec fn covered(text: Seq<u8>, token: Seq<u8>, i: int) -> bool {
    exists|at: int| occurs_at(text, token, at) && at <= i < at + token.len()
}

/// No two occurrences of `token` in `text` share a byte.
pub open spec fn occurrences_disjoint(text: Seq<u8>, token: Seq<u8>) -> bool {
    forall|p: int, q: int|
        occurs_at(text, token, p) && occurs_at(text, token, q) && p < q ==> p + token.len() <= q
}

/// A run of `n` mask bytes.
pub open spec fn mask(n: nat) -> Seq<u8> {
    Seq::new(n, |i: int| MASK)
}

/// `text` with `token` masked: reading from the left, each occurrence of
/// `token` that begins after the end of the previous masked one is replaced by
/// as many mask bytes as it has bytes. An empty token masks nothing.
pub open spec fn redacted(text: Seq<u8>, token: Seq<u8>) -> Seq<u8>
    decreases text.len(),
{
    if token.len() == 0 || text.len() < token.len() {
        text
    } else if occurs_at(text, token, 0) {
        mask(token.len()) + redacted(text.skip(token.len() as int), token)
    } else {
        seq![text[0]] + redacted(text.skip(1), token)
    }
}

/// What [`settle`] has printed for a command that exited with `code` after
/// writing `stdout`.
pub open spec fn console_of(mode: StdoutView, code: i32, stdout: Seq<u8>) -> Seq<u8> {
    match mode {
        StdoutView::Inherit => Seq::empty(),
        StdoutView::Capture => if code == 0 {
            Seq::empty()
        } else {
            stdout
        },
        StdoutView::Redact(secret) => redacted(stdout, vstd::utf8::encode_utf8(secret)),
    }
}

/// Masking keeps the length of the text.
pub proof fn lemma_redacted_len(text: Seq<u8>, token: Seq<u8>)
    ensures
        redacted(text, token).len() == text.len(),
    decreases text.len(),
{
    if token.len() == 0 || text.len() < token.len() {
    } else if occurs_at(text, token, 0) {
        lemma_redacted_len(text.skip(token.len() as int), token);
    } else {
        lemma_redacted_len(text.skip(1), token);
    }
}

/// An occurrence in a suffix of the text is an occurrence in the text, and
/// the other way round.
proof fn lemma_occurs_shift(text: Seq<u8>, token: Seq<u8>, k: int, at: int)
    requires
        0 <= k <= text.len(),
        0 <= at,
    ensures
        occurs_at(text.skip(k), token, at) == occurs_at(text, token, at + k),
{
    if at + token.len() <= text.len() - k {
        assert(text.skip(k).subrange(at, at + token.len()) =~= text.subrange(
            at + k,
            at + k + token.len(),
        ));
    }
}

/// A byte that masking changed is a mask byte inside an occurrence of the token.
pub proof fn lemma_redacted_byte(text: Seq<u8>, token: Seq<u8>, i: int)
    requires
        0 <= i < text.len(),
    ensures
        redacted(text, token)[i] == text[i] || (redacted(text, token)[i] == MASK && covered(
            text,
            token,
            i,
        )),
    decreases text.len(),
{
    let m = token.len() as int;
    if token.len() == 0 || text.len() < token.len() {
    } else if occurs_at(text, token, 0) {
        let rest = text.skip(m);
        lemma_redacted_len(rest, token);
        if i >= m {
            lemma_redacted_byte(rest, token, i - m);
            if redacted(rest, token)[i - m] != rest[i - m] {
                let at = choose|at: int| occurs_at(rest, token, at) && at <= i - m < at + m;
                lemma_occurs_shift(text, token, m, at);
                assert(occurs_at(text, token, at + m) && at + m <= i < at + m + m);
            }
        } else {
            assert(occurs_at(text, token, 0) && 0 <= i < 0 + m);
        }
    } else {
        let rest = text.skip(1);
        lemma_redacted_len(rest, token);
        if i >= 1 {
            lemma_redacted_byte(rest, token, i - 1);
            if redacted(rest, token)[i - 1] != rest[i - 1] {
                let at = choose|at: int| occurs_at(rest, token, at) && at <= i - 1 < at + m;
                lemma_occurs_shift(text, token, 1, at);
                assert(occurs_at(text, token, at + 1) && at + 1 <= i < at + 1 + m);
            }
        }
    }
}

/// The first byte of every occurrence of the token is masked, whether or not
/// occurrences overlap.
pub proof fn law_occurrences_are_broken(text: Seq<u8>, token: Seq<u8>, at: int)
    requires
        token.len() > 0,
        occurs_at(text, token, at),
    ensures
        redacted(text, token)[at] == MASK,
    decreases text.len(),
{
    let m = token.len() as int;
    if occurs_at(text, token, 0) {
        let rest = text.skip(m);
        lemma_redacted_len(rest, token);
        if at >= m {
            lemma_occurs_shift(text, token, m, at - m);
            law_occurrences_are_broken(rest, token, at - m);
        }
    } else {
        let rest = text.skip(1);
        lemma_redacted_len(rest, token);
        lemma_occurs_shift(text, token, 1, at - 1);
        law_occurrences_are_broken(rest, token, at - 1);
    }
}

/// Where no two occurrences overlap, every byte inside an occurrence is masked.
proof fn lemma_covered_is_masked(text: Seq<u8>, token: Seq<u8>, i: int)
    requires
        occurrences_disjoint(text, token),
        0 <= i < text.len(),
        covered(text, token, i),
    ensures
        redacted(text, token)[i] == MASK,
    decreases text.len(),
{
    let m = token.len() as int;
    let at = choose|at: int| occurs_at(text, token, at) && at <= i < at + m;
    if occurs_at(text, token, 0) {
        let rest = text.skip(m);
        lemma_redacted_len(rest, token);
        if i >= m {
            assert(at >= m);
            lemma_occurs_shift(text, token, m, at - m);
            assert(occurs_at(rest, token, at - m) && at - m <= i - m < at - m + m);
            assert forall|p: int, q: int|
                occurs_at(rest, token, p) && occurs_at(rest, token, q) && p < q implies p + m
                <= q by {
                lemma_occurs_shift(text, token, m, p);
                lemma_occurs_shift(text, token, m, q);
            }
            lemma_covered_is_masked(rest, token, i - m);
        }
    } else {
        let rest = text.skip(1);
        lemma_redacted_len(rest, token);
        lemma_occurs_shift(text, token, 1, at - 1);
        assert(occurs_at(rest, token, at - 1) && at - 1 <= i - 1 < at - 1 + m);
        assert forall|p: int, q: int|
            occurs_at(rest, token, p) && occurs_at(rest, token, q) && p < q implies p + m
            <= q by {
            lemma_occurs_shift(text, token, 1, p);
            lemma_occurs_shift(text, token, 1, q);
        }
        lemma_covered_is_masked(rest, token, i - 1);
    }
}

/// Masking replaces every occurrence of the token by a run of mask bytes of
/// the same length and leaves every other byte as it was, for every text in
/// which no two occurrences of the token overlap.
pub proof fn law_redaction(text: Seq<u8>, token: Seq<u8>)
    requires
        occurrences_disjoint(text, token),
    ensures
        redacted(text, token).len() == text.len(),
        forall|i: int|
            0 <= i < text.len() ==> #[trigger] redacted(text, token)[i] == (if covered(
                text,
                token,
                i,
            ) {
                MASK
            } else {
                text[i]
            }),
{
    lemma_redacted_len(text, token);
    assert forall|i: int| 0 <= i < text.len() implies #[trigger] redacted(text, token)[i]
        == if covered(text, token, i) {
        MASK
    } else {
        text[i]
    } by {
        lemma_redacted_byte(text, token, i);
        if covered(text, token, i) {
            lemma_covered_is_masked(text, token, i);
        }
    }
}

/// A secret that holds no mask byte does not stand anywhere in the masked
/// text.
pub proof fn law_secret_is_gone(text: Seq<u8>, token: Seq<u8>)
    requires
        token.len() > 0,
        forall|k: int| 0 <= k < token.len() ==> token[k] != MASK,
    ensures
        forall|at: int| !occurs_at(redacted(text, token), token, at),
{
    let masked = redacted(text, token);
    lemma_redacted_len(text, token);
    assert forall|at: int| !occurs_at(masked, token, at) by {
        if occurs_at(masked, token, at) {
            assert forall|k: int| 0 <= k < token.len() implies text[at + k] == token[k] by {
                assert(masked.subrange(at, at + token.len())[k] == masked[at + k]);
                lemma_redacted_byte(text, token, at + k);
            }
            assert(text.subrange(at, at + token.len()) =~= token);
            law_occurrences_are_broken(text, token, at);
            assert(masked.subrange(at, at + token.len())[0] == masked[at]);
        }
    }
}

/// Whether `token` stands in `text` at index `at`.
fn matches_at(text: &[u8], token: &[u8], at: usize) -> (hit: bool)
    requires
        at + token@.len() <= text@.len(),
    ensures
        hit == occurs_at(text@, token@, at as int),
{
    let n: usize = text.len();
    let m: usize = token.len();
    let mut k: usize = 0;
    while k < m
        invariant
            n == text@.len(),
            m == token@.len(),
            at + m <= n,
            k <= m,
            forall|j: int| 0 <= j < k ==> text@[at + j] == token@[j],
        decreases m - k,
    {
        if text[at + k] != token[k] {
            proof {
                assert(text@.subrange(at as int, at + m)[k as int] == text@[at + k]);
            }
            return false;
        }
        k += 1;
    }
    proof {
        assert(text@.subrange(at as int, at + m) =~= token@);
    }
    true
}

/// Masks `token` in `text`.
pub fn redact(text: &[u8], token: &[u8]) -> (out: Vec<u8>)
    ensures
        out@ == redacted(text@, token@),
{
    let n: usize = text.len();
    let m: usize = token.len();
    let mut out: Vec<u8> = Vec::new();
    let mut i: usize = 0;
    proof {
        assert(text@.skip(0) =~= text@);
        assert(out@ + redacted(text@, token@) =~= redacted(text@, token@));
    }
    while i < n
        invariant
            n == text@.len(),
            m == token@.len(),
            i <= n,
            out@ + redacted(text@.skip(i as int), token@) == redacted(text@, token@),
        decreases n - i,
    {
        let ghost rest = text@.skip(i as int);
        let ghost before = out@;
        if m > 0 && m <= n - i && matches_at(text, token, i) {
            proof {
                lemma_occurs_shift(text@, token@, i as int, 0);
            }
            let mut k: usize = 0;
            while k < m
                invariant
                    k <= m,
                    out@ == before + mask(k as nat),
                decreases m - k,
            {
                out.push(MASK);
                k += 1;
                proof {
                    assert(out@ =~= before + mask(k as nat));
                }
            }
            proof {
                assert(rest.skip(m as int) =~= text@.skip(i + m));
                assert(out@ + redacted(text@.skip(i + m), token@) =~= before + redacted(
                    rest,
                    token@,
                ));
            }
            i += m;
        } else {
            out.push(text[i]);
            proof {
                lemma_occurs_shift(text@, token@, i as int, 0);
                assert(rest.skip(1) =~= text@.skip(i + 1));
                assert(rest =~= seq![rest[0]] + rest.skip(1));
                assert(out@ + redacted(text@.skip(i + 1), token@) =~= before + redacted(
                    rest,
                    token@,
                ));
            }
            i += 1;
        }
    }
    proof {
        assert(out@ + redacted(text@.skip(n as int), token@) =~= out@);
    }
    out
}

/// The outcome of a command whose output went straight to the console.
pub fn run(code: i32) -> (outcome: Outcome)
    ensures
        outcome == outcome_of(code),
{
    if code == 0 {
        Outcome::Proceed
    } else {
        Outcome::Abort(code)
    }
}

/// The outcome of a command whose output was captured for the caller: the
/// output is printed, as it is, only when the command failed.
pub fn run_output(code: i32, stdout: &str) -> (report: Report)
    ensures
        report.outcome == outcome_of(code),
        report.console@ == console_of(StdoutView::Capture, code, stdout.spec_bytes()),
{
    if code == 0 {
        Report { console: Vec::new(), outcome: Outcome::Proceed }
    } else {
        Report { console: stdout.as_bytes_vec(), outcome: Outcome::Abort(code) }
    }
}

/// The outcome of a command that may have echoed the secret `filter`: its
/// output is printed with the secret masked, whether it failed or not.
pub fn run_filter(filter: &str, code: i32, stdout: &str) -> (report: Report)
    ensures
        report.outcome == outcome_of(code),
        report.console@ == redacted(stdout.spec_bytes(), filter.spec_bytes()),
{
    Report { console: redact(stdout.as_bytes(), filter.as_bytes()), outcome: run(code) }
}

/// The report on a command run under `mode` that exited with `code` after
/// writing `stdout`.
pub fn settle(mode: &Stdout, code: i32, stdout: &str) -> (report: Report)
    ensures
        report.outcome == outcome_of(code),
        report.console@ == console_of(mode@, code, stdout.spec_bytes()),
{
    match mode {
        Stdout::Inherit => Report { console: Vec::new(), outcome: run(code) },
        Stdout::Capture => run_output(code, stdout),
        Stdout::Redact(secret) => run_filter(secret.as_str(), code, stdout),
    }
}

} // verus!
