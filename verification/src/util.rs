//! Byte strings as the virtual machine exchanges them, and the decimal
//! rendering of integers used in diagnostic messages.

use vstd::prelude::*;
use vstd::string::*;
use vstd::utf8::*;

verus! {

/// No byte of `bytes` is the terminator `0`.
pub open spec fn nul_free(bytes: Seq<u8>) -> bool {
    forall|i: int| 0 <= i < bytes.len() ==> bytes[i] != 0
}

/// `i` is the position of the first terminator in `bytes`.
pub open spec fn is_first_nul(bytes: Seq<u8>, i: int) -> bool {
    &&& 0 <= i < bytes.len()
    &&& bytes[i] == 0
    &&& nul_free(bytes.take(i))
}

/// The position of the first terminator in `bytes`, when there is one.
pub open spec fn first_nul_position(bytes: Seq<u8>) -> int {
    choose|i: int| is_first_nul(bytes, i)
}

/// The first terminator has one position only.
pub proof fn lemma_first_nul_position(bytes: Seq<u8>, i: int)
    requires
        is_first_nul(bytes, i),
    ensures
        first_nul_position(bytes) == i,
        !nul_free(bytes),
{
    let j = first_nul_position(bytes);
    if j < i {
        assert(bytes.take(i)[j] == 0);
    } else if i < j {
        assert(bytes.take(j)[i] == 0);
    }
}

/// Length of the C string held at the start of `bytes`: the number of bytes
/// before the first terminator, or all of them when there is none.
pub open spec fn c_string_len(bytes: Seq<u8>) -> nat
    decreases bytes.len(),
{
    if bytes.len() == 0 || bytes[0] == 0 {
        0
    } else {
        1 + c_string_len(bytes.drop_first())
    }
}

/// The C string held at the start of `bytes`.
pub open spec fn c_string_spec(bytes: Seq<u8>) -> Seq<u8> {
    bytes.take(c_string_len(bytes) as int)
}

/// A terminator-free prefix that ends at a terminator, or at the end, is the
/// C string at the start of `bytes`.
pub proof fn lemma_c_string_len(bytes: Seq<u8>, n: int)
    requires
        0 <= n <= bytes.len(),
        nul_free(bytes.take(n)),
        n == bytes.len() || bytes[n] == 0,
    ensures
        c_string_len(bytes) == n,
    decreases bytes.len(),
{
    if bytes.len() == 0 || bytes[0] == 0 {
        if n > 0 {
            assert(bytes.take(n)[0] == bytes[0]);
        }
    } else {
        let rest = bytes.drop_first();
        if n == 0 {
            assert(bytes[0] == 0);
        }
        let head = rest.take(n - 1);
        assert forall|i: int| 0 <= i < head.len() implies head[i] != 0 by {
            assert(bytes.take(n)[i + 1] == head[i]);
        }
        lemma_c_string_len(rest, n - 1);
    }
}

/// The text that lossy UTF-8 decoding yields for ill-formed `bytes`; where
/// the replacement characters go is left to the standard library.
pub uninterp spec fn lossy_text(bytes: Seq<u8>) -> Seq<char>;

/// The text that `bytes` decode to: exactly the encoded text where they are
/// well-formed UTF-8, the lossy rendering otherwise.
pub open spec fn decoded_text(bytes: Seq<u8>) -> Seq<char> {
    if valid_utf8(bytes) {
        decode_utf8(bytes)
    } else {
        lossy_text(bytes)
    }
}

/// The character of a single decimal digit.
pub open spec fn digit_char(d: nat) -> char {
    if d == 0 {
        '0'
    } else if d == 1 {
        '1'
    } else if d == 2 {
        '2'
    } else if d == 3 {
        '3'
    } else if d == 4 {
        '4'
    } else if d == 5 {
        '5'
    } else if d == 6 {
        '6'
    } else if d == 7 {
        '7'
    } else if d == 8 {
        '8'
    } else {
        '9'
    }
}

/// The decimal digits of `n`, most significant first, without padding.
pub open spec fn digits(n: nat) -> Seq<char>
    decreases n,
{
    if n < 10 {
        seq![digit_char(n)]
    } else {
        digits(n / 10).push(digit_char(n % 10))
    }
}

/// The decimal rendering of `n`, with a leading minus sign when negative.
pub open spec fn decimal(n: int) -> Seq<char> {
    if n < 0 {
        seq!['-'] + digits((-n) as nat)
    } else {
        digits(n as nat)
    }
}

/// Position of the first terminator byte, if there is one.
pub fn first_nul(bytes: &[u8]) -> (r: Option<usize>)
    ensures
        match r {
            Some(i) => is_first_nul(bytes@, i as int),
            None => nul_free(bytes@),
        },
{
    let mut i: usize = 0;
    while i < bytes.len()
        invariant
            i <= bytes.len(),
            nul_free(bytes@.take(i as int)),
        decreases bytes.len() - i,
    {
        if bytes[i] == 0 {
            return Some(i);
        }
        assert(bytes@.take(i + 1) =~= bytes@.take(i as int).push(bytes@[i as int]));
        i += 1;
    }
    assert(bytes@.take(i as int) =~= bytes@);
    None
}

/// Copies the C string held at the start of `input`: the bytes before the
/// first terminator, or all of them when there is none.
pub fn c_string(input: &[u8]) -> (r: Vec<u8>)
    ensures
        r@ == c_string_spec(input@),
        nul_free(r@),
{
    let mut out: Vec<u8> = Vec::new();
    let mut i: usize = 0;
    while i < input.len() && input[i] != 0
        invariant
            i <= input.len(),
            out@ == input@.take(i as int),
            nul_free(out@),
        decreases input.len() - i,
    {
        out.push(input[i]);
        assert(input@.take(i + 1) =~= input@.take(i as int).push(input@[i as int]));
        i += 1;
    }
    proof {
        lemma_c_string_len(input@, i as int);
    }
    out
}

/// Whether two byte strings hold the same bytes.
pub fn bytes_eq(a: &Vec<u8>, b: &Vec<u8>) -> (r: bool)
    ensures
        r == (a@ == b@),
{
    if a.len() != b.len() {
        return false;
    }
    let mut i: usize = 0;
    while i < a.len()
        invariant
            a@.len() == b@.len(),
            i <= a@.len(),
            forall|j: int| 0 <= j < i ==> a@[j] == b@[j],
        decreases a.len() - i,
    {
        if a[i] != b[i] {
            return false;
        }
        i += 1;
    }
    assert(a@ =~= b@);
    true
}

/// Whether the encoding of `input` holds a terminator byte, which makes it
/// unfit for a C string.
pub fn has_nul(input: &str) -> (r: bool)
    ensures
        r == !nul_free(input.spec_bytes()),
{
    match first_nul(input.as_bytes()) {
        Some(position) => {
            proof {
                lemma_first_nul_position(input.spec_bytes(), position as int);
            }
            true
        },
        None => false,
    }
}

/// The bytes of `input` as a C string body.
pub fn from_str(input: &str) -> (r: Vec<u8>)
    requires
        nul_free(input.spec_bytes()),
    ensures
        r@ == input.spec_bytes(),
        nul_free(r@),
{
    input.as_bytes_vec()
}

/// The bytes of `input` as a C string body, or the position of the
/// terminator byte that makes it unrepresentable.
pub fn try_from_str(input: &str) -> (r: Result<Vec<u8>, usize>)
    ensures
        match r {
            Ok(bytes) => bytes@ == input.spec_bytes() && nul_free(bytes@),
            Err(position) => is_first_nul(input.spec_bytes(), position as int),
        },
{
    match first_nul(input.as_bytes()) {
        Some(position) => Err(position),
        None => Ok(input.as_bytes_vec()),
    }
}

/// Calls `String::from_utf8_lossy` and takes ownership of its result. The
/// contract claims what the standard library documents for well-formed
/// UTF-8, that the text comes back unchanged, and only names the result for
/// ill-formed input.
#[verifier::external_body]
fn utf8_lossy(bytes: &[u8]) -> (r: String)
    ensures
        valid_utf8(bytes@) ==> r@ == decode_utf8(bytes@),
        !valid_utf8(bytes@) ==> r@ == lossy_text(bytes@),
{
    String::from_utf8_lossy(bytes).into_owned()
}

/// Decodes the C string held at the start of `input` into owned text,
/// replacing ill-formed UTF-8.
pub fn lossy_string(input: &[u8]) -> (r: String)
    ensures
        r@ == decoded_text(c_string_spec(input@)),
{
    let body = c_string(input);
    utf8_lossy(body.as_slice())
}

/// Encoding text for the virtual machine and decoding it again gives the text
/// back, whenever its encoding holds no terminator byte.
pub proof fn lemma_text_round_trip(text: Seq<char>)
    requires
        nul_free(encode_utf8(text)),
    ensures
        c_string_spec(encode_utf8(text)) == encode_utf8(text),
        decoded_text(c_string_spec(encode_utf8(text))) == text,
{
    let bytes = encode_utf8(text);
    assert(bytes.take(bytes.len() as int) =~= bytes);
    lemma_c_string_len(bytes, bytes.len() as int);
    encode_utf8_valid_utf8(text);
    encode_utf8_decode_utf8(text);
}

/// The text of one decimal digit.
fn digit_str(d: u64) -> (r: &'static str)
    requires
        d < 10,
    ensures
        r@ == seq![digit_char(d as nat)],
{
    proof {
        reveal_strlit("0");
        reveal_strlit("1");
        reveal_strlit("2");
        reveal_strlit("3");
        reveal_strlit("4");
        reveal_strlit("5");
        reveal_strlit("6");
        reveal_strlit("7");
        reveal_strlit("8");
        reveal_strlit("9");
    }
    let r = if d == 0 {
        "0"
    } else if d == 1 {
        "1"
    } else if d == 2 {
        "2"
    } else if d == 3 {
        "3"
    } else if d == 4 {
        "4"
    } else if d == 5 {
        "5"
    } else if d == 6 {
        "6"
    } else if d == 7 {
        "7"
    } else if d == 8 {
        "8"
    } else {
        "9"
    };
    assert(r@ =~= seq![digit_char(d as nat)]);
    r
}

/// Appends the decimal digits of `n` to `out`.
pub fn push_digits(out: &mut String, n: u64)
    ensures
        final(out)@ == old(out)@ + digits(n as nat),
    decreases n,
{
    if n < 10 {
        out.append(digit_str(n));
    } else {
        push_digits(out, n / 10);
        out.append(digit_str(n % 10));
        assert(final(out)@ =~= old(out)@ + digits(n as nat));
    }
}

/// Appends the decimal rendering of `n` to `out`.
pub fn push_decimal(out: &mut String, n: i64)
    ensures
        final(out)@ == old(out)@ + decimal(n as int),
{
    if n < 0 {
        proof {
            reveal_strlit("-");
        }
        out.append("-");
        let magnitude: u64 = (-(n + 1)) as u64 + 1;
        push_digits(out, magnitude);
        assert(final(out)@ =~= old(out)@ + decimal(n as int));
    } else {
        push_digits(out, n as u64);
    }
}

} // verus!
