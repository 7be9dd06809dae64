//! Interpreting what one finished invocation of the external tool left
//! behind: its exit status and its captured output streams. The captured
//! bytes are trimmed of leading and trailing whitespace, decoded as text
//! with invalid sequences replaced, and mapped to a success or an error.

use vstd::prelude::*;

verus! {

/// How an invocation of the external tool failed: the process could not be
/// started at all, or it ran and exited with a non-zero status.
#[derive(Debug, PartialEq, Eq)]
pub enum GeminiError {
    /// The tool binary could not be spawned; carries the reported cause.
    Spawn(String),
    /// The tool ran and failed; carries its trimmed standard-error text.
    Tool(String),
}

impl GeminiError {
    /// The text carried by the error, whichever kind it is.
    pub open spec fn message_view(&self) -> Seq<char> {
        match self {
            GeminiError::Spawn(s) => s@,
            GeminiError::Tool(s) => s@,
        }
    }

    /// Surrender the carried text.
    pub fn into_message(self) -> (m: String)
        ensures
            m@ == self.message_view(),
    {
        match self {
            GeminiError::Spawn(s) => s,
            GeminiError::Tool(s) => s,
        }
    }
}

/// The bytes treated as whitespace when output is trimmed: space,
/// horizontal tab, line feed, vertical tab, form feed, carriage return.
pub open spec fn is_ws_byte(b: u8) -> bool {
    b == 0x20 || b == 0x09 || b == 0x0a || b == 0x0b || b == 0x0c || b == 0x0d
}

/// `s` with its leading whitespace bytes removed.
pub open spec fn trim_front(s: Seq<u8>) -> Seq<u8>
    decreases s.len(),
{
    if s.len() > 0 && is_ws_byte(s[0]) {
        trim_front(s.drop_first())
    } else {
        s
    }
}

/// `s` with its trailing whitespace bytes removed.
pub open spec fn trim_back(s: Seq<u8>) -> Seq<u8>
    decreases s.len(),
{
    if s.len() > 0 && is_ws_byte(s.last()) {
        trim_back(s.drop_last())
    } else {
        s
    }
}

/// `s` with both leading and trailing whitespace bytes removed.
pub open spec fn trimmed(s: Seq<u8>) -> Seq<u8> {
    trim_back(trim_front(s))
}

/// Dropping whitespace bytes one by one from the front reaches any prefix
/// cut: if everything before `i` is whitespace, trimming the front of `s`
/// is trimming the front of `s` without its first `i` bytes.
proof fn lemma_trim_front_skips(s: Seq<u8>, i: int)
    requires
        0 <= i <= s.len(),
        forall|j: int| 0 <= j < i ==> is_ws_byte(s[j]),
    ensures
        trim_front(s) == trim_front(s.subrange(i, s.len() as int)),
    decreases i,
{
    if i == 0 {
        assert(s.subrange(0, s.len() as int) =~= s);
    } else {
        assert(is_ws_byte(s[0]));
        assert(trim_front(s) == trim_front(s.drop_first()));
        let t = s.drop_first();
        lemma_trim_front_skips(t, i - 1);
        assert(t.subrange(i - 1, t.len() as int) =~= s.subrange(i, s.len() as int));
    }
}

/// Dropping whitespace bytes one by one from the back reaches any suffix
/// cut: if everything from `i` on is whitespace, trimming the back of `s`
/// is trimming the back of its first `i` bytes.
proof fn lemma_trim_back_skips(s: Seq<u8>, i: int)
    requires
        0 <= i <= s.len(),
        forall|j: int| i <= j < s.len() ==> is_ws_byte(s[j]),
    ensures
        trim_back(s) == trim_back(s.subrange(0, i)),
    decreases s.len() - i,
{
    if i == s.len() {
        assert(s.subrange(0, i) =~= s);
    } else {
        assert(is_ws_byte(s.last()));
        assert(trim_back(s) == trim_back(s.drop_last()));
        let t = s.drop_last();
        lemma_trim_back_skips(t, i);
        assert(t.subrange(0, i) =~= s.subrange(0, i));
    }
}

/// Remove leading and trailing whitespace bytes from `s`, keeping the
/// interior untouched.
pub fn trim_bytes(s: &Vec<u8>) -> (r: Vec<u8>)
    ensures
        r@ == trimmed(s@),
{
    let n = s.len();
    let mut lo: usize = 0;
    while lo < n && (s[lo] == 0x20 || s[lo] == 0x09 || s[lo] == 0x0a || s[lo] == 0x0b
        || s[lo] == 0x0c || s[lo] == 0x0d)
        invariant
            n == s@.len(),
            0 <= lo <= n,
            forall|j: int| 0 <= j < lo ==> is_ws_byte(s@[j]),
        decreases n - lo,
    {
        lo = lo + 1;
    }
    let mut hi: usize = n;
    while hi > lo && (s[hi - 1] == 0x20 || s[hi - 1] == 0x09 || s[hi - 1] == 0x0a
        || s[hi - 1] == 0x0b || s[hi - 1] == 0x0c || s[hi - 1] == 0x0d)
        invariant
            n == s@.len(),
            lo <= hi <= n,
            forall|j: int| hi <= j < n ==> is_ws_byte(s@[j]),
        decreases hi,
    {
        hi = hi - 1;
    }
    let mut r: Vec<u8> = Vec::new();
    let mut i: usize = lo;
    while i < hi
        invariant
            lo <= i <= hi <= n,
            n == s@.len(),
            r@ == s@.subrange(lo as int, i as int),
        decreases hi - i,
    {
        r.push(s[i]);
        proof {
            assert(r@ =~= s@.subrange(lo as int, i + 1));
        }
        i = i + 1;
    }
    proof {
        let front = s@.subrange(lo as int, n as int);
        lemma_trim_front_skips(s@, lo as int);
        assert(trim_front(s@) == front);
        assert(forall|j: int| hi - lo <= j < front.len() ==> is_ws_byte(front[j]));
        lemma_trim_back_skips(front, hi - lo);
        assert(front.subrange(0, hi - lo) =~= s@.subrange(lo as int, hi as int));
        if hi > lo {
            assert(!is_ws_byte(s@.subrange(lo as int, hi as int).last()));
        }
        assert(trimmed(s@) == s@.subrange(lo as int, hi as int));
    }
    r
}

/// The text that lossy UTF-8 decoding yields for a given byte sequence;
/// a function of the bytes alone.
pub uninterp spec fn lossy_text(bytes: Seq<u8>) -> Seq<char>;

/// Whether every byte of `s` is ASCII.
pub open spec fn ascii_bytes(s: Seq<u8>) -> bool {
    forall|i: int| 0 <= i < s.len() ==> s[i] < 128
}

/// Each byte of `s` read as the character with the same code point.
pub open spec fn chars_of(s: Seq<u8>) -> Seq<char> {
    s.map_values(|b: u8| b as char)
}

/// Relies on String::from_utf8_lossy: decodes UTF-8, replacing each
/// invalid sequence with U+FFFD; the result depends on the bytes alone,
/// and valid UTF-8 — in particular pure ASCII — passes through unchanged.
#[verifier::external_body]
fn decode_lossy(bytes: &Vec<u8>) -> (r: String)
    ensures
        r@ == lossy_text(bytes@),
        bytes@.len() == 0 ==> r@.len() == 0,
        ascii_bytes(bytes@) ==> r@ == chars_of(bytes@),
{
    String::from_utf8_lossy(bytes).into_owned()
}

/// What one finished invocation amounts to: on a zero exit status the
/// trimmed, decoded standard output; otherwise the trimmed, decoded
/// standard error.
pub open spec fn run_outcome(success: bool, stdout: Seq<u8>, stderr: Seq<u8>) -> Result<
    Seq<char>,
    Seq<char>,
> {
    if success {
        Result::Ok(lossy_text(trimmed(stdout)))
    } else {
        Result::Err(lossy_text(trimmed(stderr)))
    }
}

/// Map the exit status and captured streams of one finished invocation to
/// the call's result: the trimmed standard output as text on success, the
/// trimmed standard error wrapped in a tool error otherwise. Succeeds if
/// and only if the process did.
pub fn interpret_output(success: bool, stdout: &Vec<u8>, stderr: &Vec<u8>) -> (r: Result<
    String,
    GeminiError,
>)
    ensures
        success <==> r is Ok,
        r matches Ok(t) ==> Result::<Seq<char>, Seq<char>>::Ok(t@) == run_outcome(
            success,
            stdout@,
            stderr@,
        ),
        r matches Err(e) ==> e matches GeminiError::Tool(m) && Result::<
            Seq<char>,
            Seq<char>,
        >::Err(m@) == run_outcome(success, stdout@, stderr@),
        success && ascii_bytes(trimmed(stdout@)) ==> (r matches Ok(t) && t@ == chars_of(
            trimmed(stdout@),
        )),
        !success && ascii_bytes(trimmed(stderr@)) ==> (r matches Err(e) && e.message_view()
            == chars_of(trimmed(stderr@))),
{
    if success {
        let out = trim_bytes(stdout);
        Result::Ok(decode_lossy(&out))
    } else {
        let err = trim_bytes(stderr);
        Result::Err(GeminiError::Tool(decode_lossy(&err)))
    }
}

/// Concurrent invocations cannot cross: each call's result is a function
/// of that call's own exit status and captured streams alone, so two
/// successful calls whose outputs decode to different text receive
/// different results, each the text of its own standard output.
pub proof fn lemma_outputs_stay_apart(
    out_a: Seq<u8>,
    err_a: Seq<u8>,
    out_b: Seq<u8>,
    err_b: Seq<u8>,
)
    ensures
        run_outcome(true, out_a, err_a) == Result::<Seq<char>, Seq<char>>::Ok(
            lossy_text(trimmed(out_a)),
        ),
        run_outcome(true, out_b, err_b) == Result::<Seq<char>, Seq<char>>::Ok(
            lossy_text(trimmed(out_b)),
        ),
        lossy_text(trimmed(out_a)) != lossy_text(trimmed(out_b)) ==> run_outcome(
            true,
            out_a,
            err_a,
        ) != run_outcome(true, out_b, err_b),
{
}

} // verus!
