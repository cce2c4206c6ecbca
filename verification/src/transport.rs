//! The transport encoding: arbitrary bytes carried as text that holds no zero
//! byte, in the standard base64 alphabet with `=` padding.

use vstd::prelude::*;

verus! {

/// The padding byte, `=`.
pub const PAD: u8 = 61;

/// The byte that stands for the six-bit value `v`.
pub open spec fn symbol(v: int) -> u8 {
    if v < 26 {
        (65 + v) as u8
    } else if v < 52 {
        (97 + (v - 26)) as u8
    } else if v < 62 {
        (48 + (v - 52)) as u8
    } else if v == 62 {
        43u8
    } else {
        47u8
    }
}

/// Whether `b` is a letter, a digit, `+` or `/`.
pub open spec fn is_symbol(b: u8) -> bool {
    (65 <= b <= 90) || (97 <= b <= 122) || (48 <= b <= 57) || b == 43 || b == 47
}

/// Whether `b` may occur in transport text: a symbol or the padding byte.
pub open spec fn is_text_byte(b: u8) -> bool {
    is_symbol(b) || b == PAD
}

/// Whether every byte of `text` may occur in transport text.
pub open spec fn is_text_safe(text: Seq<u8>) -> bool {
    forall|i: int| 0 <= i < text.len() ==> is_text_byte(#[trigger] text[i])
}

/// The four bytes of text that carry the first group of `bytes`, which holds
/// one, two or three bytes.
pub open spec fn group_text(bytes: Seq<u8>) -> Seq<u8>
    recommends
        bytes.len() >= 1,
{
    let b0 = bytes[0] as int;
    if bytes.len() == 1 {
        seq![symbol(b0 / 4), symbol((b0 % 4) * 16), PAD, PAD]
    } else if bytes.len() == 2 {
        let b1 = bytes[1] as int;
        seq![symbol(b0 / 4), symbol((b0 % 4) * 16 + b1 / 16), symbol((b1 % 16) * 4), PAD]
    } else {
        let b1 = bytes[1] as int;
        let b2 = bytes[2] as int;
        seq![
            symbol(b0 / 4),
            symbol((b0 % 4) * 16 + b1 / 16),
            symbol((b1 % 16) * 4 + b2 / 64),
            symbol(b2 % 64),
        ]
    }
}

/// The transport text of `bytes`: each group of three bytes becomes four
/// symbols, and a last group of one or two bytes is padded to four.
pub open spec fn base64_text(bytes: Seq<u8>) -> Seq<u8>
    decreases bytes.len(),
{
    if bytes.len() == 0 {
        Seq::empty()
    } else if bytes.len() <= 3 {
        group_text(bytes)
    } else {
        group_text(bytes.take(3)) + base64_text(bytes.skip(3))
    }
}

/// The length of the transport text of `len` bytes.
pub open spec fn text_len(len: nat) -> nat {
    4 * ((len + 2) / 3)
}

/// Every six-bit value has a symbol.
pub proof fn lemma_symbol_is_symbol(v: int)
    requires
        0 <= v < 64,
    ensures
        is_symbol(symbol(v)),
{
}

/// The text of one group is four text bytes.
pub proof fn lemma_group_text(bytes: Seq<u8>)
    requires
        1 <= bytes.len() <= 3,
    ensures
        group_text(bytes).len() == 4,
        is_text_safe(group_text(bytes)),
{
    let b0 = bytes[0] as int;
    lemma_symbol_is_symbol(b0 / 4);
    lemma_symbol_is_symbol((b0 % 4) * 16);
    if bytes.len() >= 2 {
        let b1 = bytes[1] as int;
        lemma_symbol_is_symbol((b0 % 4) * 16 + b1 / 16);
        lemma_symbol_is_symbol((b1 % 16) * 4);
        if bytes.len() == 3 {
            let b2 = bytes[2] as int;
            lemma_symbol_is_symbol((b1 % 16) * 4 + b2 / 64);
            lemma_symbol_is_symbol(b2 % 64);
        }
    }
}

/// Transport text is text-safe, holds no zero byte, and is four bytes long
/// for every three bytes of payload, the last group rounded up.
pub proof fn lemma_base64_text_safe(bytes: Seq<u8>)
    ensures
        is_text_safe(base64_text(bytes)),
        base64_text(bytes).len() == text_len(bytes.len()),
        forall|i: int| 0 <= i < base64_text(bytes).len() ==> #[trigger] base64_text(bytes)[i] != 0,
    decreases bytes.len(),
{
    if bytes.len() == 0 {
    } else if bytes.len() <= 3 {
        lemma_group_text(bytes);
    } else {
        lemma_group_text(bytes.take(3));
        lemma_base64_text_safe(bytes.skip(3));
    }
}

/// The six-bit value that the symbol `b` stands for.
pub open spec fn symbol_value(b: u8) -> int {
    if 65 <= b <= 90 {
        b - 65
    } else if 97 <= b <= 122 {
        b - 97 + 26
    } else if 48 <= b <= 57 {
        b - 48 + 52
    } else if b == 43 {
        62
    } else {
        63
    }
}

/// A symbol names its value, and no symbol is the padding byte.
pub proof fn lemma_symbol_value(v: int)
    requires
        0 <= v < 64,
    ensures
        symbol_value(symbol(v)) == v,
        symbol(v) != PAD,
{
}

/// Two groups with the same text are the same group.
pub proof fn lemma_group_text_injective(a: Seq<u8>, b: Seq<u8>)
    requires
        1 <= a.len() <= 3,
        1 <= b.len() <= 3,
        group_text(a) == group_text(b),
    ensures
        a == b,
{
    let ta = group_text(a);
    let tb = group_text(b);
    let a0 = a[0] as int;
    let b0 = b[0] as int;
    lemma_symbol_value(a0 / 4);
    lemma_symbol_value(b0 / 4);
    assert(ta[0] == tb[0]);
    assert(ta[1] == tb[1]);
    assert(ta[2] == tb[2]);
    assert(ta[3] == tb[3]);
    if a.len() >= 2 {
        lemma_symbol_value((a0 % 4) * 16 + (a[1] as int) / 16);
        lemma_symbol_value(((a[1] as int) % 16) * 4);
    } else {
        lemma_symbol_value((a0 % 4) * 16);
    }
    if b.len() >= 2 {
        lemma_symbol_value((b0 % 4) * 16 + (b[1] as int) / 16);
        lemma_symbol_value(((b[1] as int) % 16) * 4);
    } else {
        lemma_symbol_value((b0 % 4) * 16);
    }
    if a.len() == 3 {
        lemma_symbol_value(((a[1] as int) % 16) * 4 + (a[2] as int) / 64);
        lemma_symbol_value((a[2] as int) % 64);
    }
    if b.len() == 3 {
        lemma_symbol_value(((b[1] as int) % 16) * 4 + (b[2] as int) / 64);
        lemma_symbol_value((b[2] as int) % 64);
    }
    assert(a.len() == b.len());
    assert(a0 == b0);
    if a.len() >= 2 {
        assert(a[1] == b[1]);
    }
    if a.len() == 3 {
        assert(a[2] == b[2]);
    }
    assert(a =~= b);
}

/// The encoding is free of collisions: two payloads with the same transport
/// text are the same payload.
pub proof fn lemma_base64_text_injective(a: Seq<u8>, b: Seq<u8>)
    requires
        base64_text(a) == base64_text(b),
    ensures
        a == b,
    decreases a.len(),
{
    lemma_base64_text_safe(a);
    lemma_base64_text_safe(b);
    if a.len() == 0 || b.len() == 0 {
        assert(a.len() == 0 && b.len() == 0);
        assert(a =~= b);
    } else if a.len() <= 3 {
        assert(b.len() <= 3);
        lemma_group_text_injective(a, b);
    } else {
        assert(b.len() > 3);
        let ga = group_text(a.take(3));
        let gb = group_text(b.take(3));
        let ra = base64_text(a.skip(3));
        let rb = base64_text(b.skip(3));
        lemma_group_text(a.take(3));
        lemma_group_text(b.take(3));
        assert(ga =~= (ga + ra).subrange(0, 4));
        assert(gb =~= (gb + rb).subrange(0, 4));
        assert(ra =~= (ga + ra).subrange(4, (ga + ra).len() as int));
        assert(rb =~= (gb + rb).subrange(4, (gb + rb).len() as int));
        lemma_group_text_injective(a.take(3), b.take(3));
        lemma_base64_text_injective(a.skip(3), b.skip(3));
        assert(a =~= a.take(3) + a.skip(3));
        assert(b =~= b.take(3) + b.skip(3));
    }
}

/// The bytes that `base64::decode` recovers from `text`, or `None` where it
/// rejects the text.
pub uninterp spec fn base64_decoded(text: Seq<u8>) -> Option<Seq<u8>>;

/// `base64::DecodeError`, carried through as an opaque value.
#[verifier::external_type_specification]
#[verifier::external_body]
pub struct ExDecodeError(base64::DecodeError);

/// Calls `base64::encode`, and hands the string's bytes out.
///
/// Trusted: the text is the standard base64 encoding with padding, as
/// `base64_text` writes it out, and `base64::decode` recovers the payload from
/// it. The outside function panics where the text's length overflows `usize`,
/// so such a payload is left out.
#[verifier::external_body]
fn base64_encode(bytes: &[u8]) -> (text: Vec<u8>)
    requires
        text_len(bytes@.len()) <= usize::MAX,
    ensures
        text@ == base64_text(bytes@),
        base64_decoded(text@) == Some(bytes@),
{
    base64::encode(bytes).into_bytes()
}

/// Calls `base64::decode`.
///
/// Trusted: the outcome is a function of the text alone, and a text that is
/// accepted holds only symbols of the alphabet and padding bytes. The outside
/// function panics where the text's length plus seven overflows `usize`, so
/// such a text is left out.
#[verifier::external_body]
fn base64_decode(text: &[u8]) -> (r: Result<Vec<u8>, base64::DecodeError>)
    requires
        text@.len() + 7 <= usize::MAX,
    ensures
        r matches Ok(bytes) ==> base64_decoded(text@) == Some(bytes@),
        r is Err ==> base64_decoded(text@) is None,
        r is Ok ==> is_text_safe(text@),
{
    base64::decode(text)
}

/// The room that a decoder needs beyond the text to measure it.
pub const DECODE_MARGIN: usize = 7;

/// Whether the transport text of `len` bytes can be written and read back on
/// this machine: its length, and the margin that a decoder adds to it, fit in
/// `usize`.
pub open spec fn transportable_len(len: nat) -> bool {
    text_len(len) + DECODE_MARGIN <= usize::MAX
}

/// The length of the transport text of `len` bytes, or `None` where that
/// length does not fit in `usize`.
pub fn encoded_len(len: usize) -> (r: Option<usize>)
    ensures
        r == (if text_len(len as nat) <= usize::MAX {
            Some(text_len(len as nat) as usize)
        } else {
            None::<usize>
        }),
{
    let groups: usize = len / 3 + (if len % 3 == 0 { 0 } else { 1 });
    assert(groups == (len + 2) / 3);
    groups.checked_mul(4)
}

/// Whether the transport text of `len` bytes can be written and read back on
/// this machine.
pub fn is_transportable(len: usize) -> (r: bool)
    ensures
        r == transportable_len(len as nat),
{
    match encoded_len(len) {
        Some(n) => n <= usize::MAX - DECODE_MARGIN,
        None => false,
    }
}

/// Encodes `bytes` as transport text.
///
/// The text is text-safe, so it holds no zero byte and can travel as a
/// terminated string, and decoding it gives the payload back.
pub fn encode_text(bytes: &[u8]) -> (text: Vec<u8>)
    requires
        text_len(bytes@.len()) <= usize::MAX,
    ensures
        text@ == base64_text(bytes@),
        text@.len() == text_len(bytes@.len()),
        is_text_safe(text@),
        forall|i: int| 0 <= i < text@.len() ==> #[trigger] text@[i] != 0,
        base64_decoded(text@) == Some(bytes@),
        transportable_len(bytes@.len()) ==> decode_text_spec(text@) == Some(bytes@),
{
    let text = base64_encode(bytes);
    proof {
        lemma_base64_text_safe(bytes@);
    }
    text
}

/// What `decode_text` returns for `text`.
pub open spec fn decode_text_spec(text: Seq<u8>) -> Option<Seq<u8>> {
    if text.len() + DECODE_MARGIN <= usize::MAX {
        base64_decoded(text)
    } else {
        None
    }
}

/// The view of an optional buffer.
pub open spec fn option_view(r: Option<Vec<u8>>) -> Option<Seq<u8>> {
    match r {
        Some(bytes) => Some(bytes@),
        None => None,
    }
}

/// Decodes transport text into the bytes it carries.
///
/// A text that holds any byte outside the alphabet and the padding byte is
/// refused, and so is one too long to be measured.
pub fn decode_text(text: &[u8]) -> (r: Option<Vec<u8>>)
    ensures
        option_view(r) == decode_text_spec(text@),
        !is_text_safe(text@) ==> r is None,
{
    if text.len() > usize::MAX - DECODE_MARGIN {
        return None;
    }
    match base64_decode(text) {
        Ok(bytes) => Some(bytes),
        Err(_) => None,
    }
}

} // verus!
