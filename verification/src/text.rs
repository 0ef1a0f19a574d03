//! Texts exchanged with the engine: NUL-terminated byte strings going in,
//! NUL-terminated byte buffers coming back, and the decimal numbers that
//! appear in error messages.
use vstd::prelude::*;
use vstd::string::StringSliceAdditionalSpecFns;
use vstd::utf8::{decode_utf8, encode_utf8, valid_utf8};

verus! {

/// The UTF-8 bytes of a text.
pub open spec fn utf8_bytes(s: Seq<char>) -> Seq<u8> {
    encode_utf8(s)
}

/// Index of the first zero byte of `bytes`, or its length when it holds none.
pub open spec fn first_zero(bytes: Seq<u8>) -> int
    decreases bytes.len(),
{
    if bytes.len() == 0 {
        0
    } else if bytes[0] == 0 {
        0
    } else {
        1 + first_zero(bytes.drop_first())
    }
}

/// True when `bytes` holds a zero byte, which a C string cannot carry.
pub open spec fn has_nul(bytes: Seq<u8>) -> bool {
    first_zero(bytes) < bytes.len()
}

/// `first_zero` is the position `i` such that no byte before it is zero and
/// either it is the end or the byte there is zero.
pub proof fn lemma_first_zero(bytes: Seq<u8>, i: int)
    requires
        0 <= i <= bytes.len(),
        forall|j: int| 0 <= j < i ==> bytes[j] != 0,
        i == bytes.len() || bytes[i] == 0,
    ensures
        first_zero(bytes) == i,
    decreases i,
{
    if i > 0 {
        let rest = bytes.drop_first();
        assert forall|j: int| 0 <= j < i - 1 implies rest[j] != 0 by {
            assert(rest[j] == bytes[j + 1]);
        }
        lemma_first_zero(rest, i - 1);
    }
}

/// The characteristic facts of `first_zero`: it lies within the sequence, no
/// byte before it is zero, and the byte at it (if any) is zero.
pub proof fn lemma_first_zero_facts(bytes: Seq<u8>)
    ensures
        0 <= first_zero(bytes) <= bytes.len(),
        forall|j: int| 0 <= j < first_zero(bytes) ==> bytes[j] != 0,
        first_zero(bytes) < bytes.len() ==> bytes[first_zero(bytes)] == 0,
    decreases bytes.len(),
{
    if bytes.len() > 0 && bytes[0] != 0 {
        let rest = bytes.drop_first();
        lemma_first_zero_facts(rest);
        assert forall|j: int| 0 <= j < first_zero(bytes) implies bytes[j] != 0 by {
            if j > 0 {
                assert(bytes[j] == rest[j - 1]);
            }
        }
    }
}

/// The position where a C string stored in `buf` ends.
pub fn c_text_end(buf: &[u8]) -> (end: usize)
    ensures
        end == first_zero(buf@),
{
    let mut i: usize = 0;
    while i < buf.len() && buf[i] != 0
        invariant
            i <= buf@.len(),
            forall|j: int| 0 <= j < i ==> buf@[j] != 0,
        decreases buf.len() - i,
    {
        i = i + 1;
    }
    proof {
        lemma_first_zero(buf@, i as int);
    }
    i
}

/// The character of the decimal digit `d`.
pub open spec fn digit_char(d: nat) -> char {
    if d == 0 {
        '0'
    } else if d == 1 {
        '1'
    } else if d == 2 {
        '2'
    } else if d == 3 {
        '3'
    } else if d == 4 {
        '4'
    } else if d == 5 {
        '5'
    } else if d == 6 {
        '6'
    } else if d == 7 {
        '7'
    } else if d == 8 {
        '8'
    } else {
        '9'
    }
}

/// The decimal notation of `n`, most significant digit first, without
/// leading zeros.
pub open spec fn decimal(n: nat) -> Seq<char>
    decreases n,
{
    if n < 10 {
        seq![digit_char(n)]
    } else {
        decimal(n / 10).push(digit_char(n % 10))
    }
}

fn digit_str(d: usize) -> (s: &'static str)
    requires
        d < 10,
    ensures
        s@ == seq![digit_char(d as nat)],
{
    proof {
        reveal_strlit("0");
        reveal_strlit("1");
        reveal_strlit("2");
        reveal_strlit("3");
        reveal_strlit("4");
        reveal_strlit("5");
        reveal_strlit("6");
        reveal_strlit("7");
        reveal_strlit("8");
        reveal_strlit("9");
    }
    if d == 0 {
        "0"
    } else if d == 1 {
        "1"
    } else if d == 2 {
        "2"
    } else if d == 3 {
        "3"
    } else if d == 4 {
        "4"
    } else if d == 5 {
        "5"
    } else if d == 6 {
        "6"
    } else if d == 7 {
        "7"
    } else if d == 8 {
        "8"
    } else {
        "9"
    }
}

/// Writes `n` in decimal, as `Display` does for integers.
pub fn decimal_string(n: usize) -> (s: String)
    ensures
        s@ == decimal(n as nat),
    decreases n,
{
    if n < 10 {
        String::from_str(digit_str(n))
    } else {
        let head = decimal_string(n / 10);
        let s = head.concat(digit_str(n % 10));
        assert(s@ =~= decimal(n as nat));
        s
    }
}

/// The text that a rejected conversion to a C string reports: the one that
/// std's `NulError` displays, naming the byte position of the first zero.
pub open spec fn nul_error_message(pos: nat) -> Seq<char> {
    "nul byte found in provided data at position: "@ + decimal(pos)
}

/// A string ready to be handed to the engine: its UTF-8 bytes, none of them
/// zero; the engine receives them followed by a terminating zero.
#[derive(Debug)]
pub struct CText {
    bytes: Vec<u8>,
}

impl View for CText {
    type V = Seq<u8>;

    closed spec fn view(&self) -> Seq<u8> {
        self.bytes@
    }
}

impl CText {
    #[verifier::type_invariant]
    spec fn nul_free(self) -> bool {
        !has_nul(self.bytes@)
    }

    /// The bytes of the text, without the terminating zero.
    pub fn as_bytes(&self) -> (b: &[u8])
        ensures
            b@ == self@,
            !has_nul(b@),
    {
        proof {
            use_type_invariant(self);
        }
        self.bytes.as_slice()
    }
}

/// Checks that `s` can travel as a C string and copies its bytes.
///
/// Fails, as std's `CString::new` does, when `s` holds a zero byte; the
/// message names the position of the first one.
pub fn to_cstring(s: &str) -> (r: Result<CText, String>)
    ensures
        match r {
            Ok(c) => !has_nul(s.spec_bytes()) && c@ == s.spec_bytes(),
            Err(e) => has_nul(s.spec_bytes()) && e@ == nul_error_message(
                first_zero(s.spec_bytes()) as nat,
            ),
        },
{
    let bytes = s.as_bytes();
    let end = c_text_end(bytes);
    if end < bytes.len() {
        let msg = String::from_str("nul byte found in provided data at position: ");
        let pos = decimal_string(end);
        let msg = msg.concat(pos.as_str());
        Err(msg)
    } else {
        Ok(CText { bytes: vstd::slice::slice_to_vec(bytes) })
    }
}

/// The error that converting `texts` in order reports: that of the first one
/// holding a zero byte, if any.
pub open spec fn conversion_error(texts: Seq<Seq<u8>>) -> Option<Seq<char>>
    decreases texts.len(),
{
    if texts.len() == 0 {
        None
    } else if has_nul(texts[0]) {
        Some(nul_error_message(first_zero(texts[0]) as nat))
    } else {
        conversion_error(texts.drop_first())
    }
}

/// Converting two runs of texts one after the other fails with the first
/// run's error, if it has one, and otherwise with the second's.
pub proof fn lemma_conversion_error_concat(a: Seq<Seq<u8>>, b: Seq<Seq<u8>>)
    ensures
        conversion_error(a + b) == match conversion_error(a) {
            Some(e) => Some(e),
            None => conversion_error(b),
        },
    decreases a.len(),
{
    if a.len() > 0 {
        assert((a + b).drop_first() =~= a.drop_first() + b);
        lemma_conversion_error_concat(a.drop_first(), b);
    } else {
        assert(a + b =~= b);
    }
}

/// Converting in order fails at the first text holding a zero byte.
pub proof fn lemma_conversion_error_at(texts: Seq<Seq<u8>>, k: int)
    requires
        0 <= k <= texts.len(),
        forall|j: int| 0 <= j < k ==> !has_nul(#[trigger] texts[j]),
        k == texts.len() || has_nul(texts[k]),
    ensures
        conversion_error(texts) == if k == texts.len() {
            None
        } else {
            Some(nul_error_message(first_zero(texts[k]) as nat))
        },
    decreases k,
{
    if k > 0 {
        let rest = texts.drop_first();
        assert forall|j: int| 0 <= j < k - 1 implies !has_nul(#[trigger] rest[j]) by {
            assert(rest[j] == texts[j + 1]);
        }
        lemma_conversion_error_at(rest, k - 1);
    }
}

/// Name for what std's `String::from_utf8_lossy` makes of a byte sequence.
pub uninterp spec fn lossy_utf8(bytes: Seq<u8>) -> Seq<char>;

/// Calls std's `String::from_utf8_lossy` and takes ownership of the result.
///
/// Claims that the result is a function of the bytes alone, and, as std
/// documents, that valid UTF-8 is decoded unchanged. What replaces invalid
/// sequences is left unsaid.
#[verifier::external_body]
fn utf8_lossy(bytes: &[u8]) -> (s: String)
    ensures
        s@ == lossy_utf8(bytes@),
        valid_utf8(bytes@) ==> s@ == decode_utf8(bytes@),
{
    String::from_utf8_lossy(bytes).into_owned()
}

/// The characters that a lossy UTF-8 decoding gives for `bytes`.
pub open spec fn lossy_text(bytes: Seq<u8>) -> Seq<char> {
    if valid_utf8(bytes) {
        decode_utf8(bytes)
    } else {
        lossy_utf8(bytes)
    }
}

/// The bytes of the C string held at the start of a buffer.
pub open spec fn c_text_bytes(buf: Seq<u8>) -> Seq<u8> {
    buf.take(first_zero(buf))
}

/// The text of the C string held at the start of a buffer.
pub open spec fn c_text_of(buf: Seq<u8>) -> Seq<char> {
    lossy_text(c_text_bytes(buf))
}

/// Reads the C string at the start of `buf`: the bytes before the first zero
/// (all of them when there is none), decoded as UTF-8 with invalid sequences
/// replaced.
pub fn c_buffer_text(buf: &[u8]) -> (s: String)
    ensures
        s@ == c_text_of(buf@),
{
    let end = c_text_end(buf);
    proof {
        lemma_first_zero_facts(buf@);
    }
    let text = vstd::slice::slice_subrange(buf, 0, end);
    assert(text@ == c_text_bytes(buf@));
    utf8_lossy(text)
}

/// Storing a string's bytes in a buffer, followed by a zero and anything
/// else, and reading the C string back gives the string again.
pub proof fn lemma_c_text_round_trip(s: Seq<char>, rest: Seq<u8>)
    requires
        !has_nul(encode_utf8(s)),
    ensures
        c_text_of(encode_utf8(s) + seq![0u8] + rest) == s,
{
    let e = encode_utf8(s);
    let buf = e + seq![0u8] + rest;
    lemma_first_zero_facts(e);
    assert forall|j: int| 0 <= j < e.len() implies buf[j] != 0 by {
        assert(buf[j] == e[j]);
    }
    lemma_first_zero(buf, e.len() as int);
    assert(c_text_bytes(buf) =~= e);
    vstd::utf8::encode_utf8_valid_utf8(s);
    vstd::utf8::encode_utf8_decode_utf8(s);
}

} // verus!
