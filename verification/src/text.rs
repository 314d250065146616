//! Text transformations: names in kebab case, digests, hexadecimal digits.

use vstd::prelude::*;

verus! {

/// The kebab case of a text as the `heck` crate defines it: the words of the
/// text in lower case, joined by hyphens.
pub uninterp spec fn kebab_case(text: Seq<char>) -> Seq<char>;

/// The MD5 digest of a text's UTF-8 encoding as the `md5` crate computes it.
pub uninterp spec fn md5_digest(text: Seq<char>) -> Seq<u8>;

/// Calls `heck::KebabCase::to_kebab_case` on `text`. Nothing is proved of the
/// conversion: the contract only gives its result the name [`kebab_case`].
#[verifier::external_body]
fn to_kebab_case(text: &str) -> (r: String)
    ensures
        r@ == kebab_case(text@),
{
    heck::KebabCase::to_kebab_case(text)
}

/// Calls `md5::compute` on the bytes of `text` and hands out the sixteen
/// bytes of the digest. Nothing is proved of the digest: the contract only
/// gives it the name [`md5_digest`].
#[verifier::external_body]
fn md5_of(text: &str) -> (r: [u8; 16])
    ensures
        r@ == md5_digest(text@),
{
    md5::compute(text).0
}

/// Turns a raw name into one that can serve as a directory's name: its kebab
/// case.
pub fn normalize_name(raw_name: &str) -> (r: String)
    ensures
        r@ == kebab_case(raw_name@),
{
    to_kebab_case(raw_name)
}

/// The sixteen hexadecimal digits, in lower case.
pub open spec fn hex_digits() -> Seq<char> {
    seq!['0', '1', '2', '3', '4', '5', '6', '7', '8', '9', 'a', 'b', 'c', 'd', 'e', 'f']
}

/// The bytes written out as hexadecimal digits, two for each byte, the high
/// half first.
pub open spec fn hex_of(bytes: Seq<u8>) -> Seq<char> {
    Seq::new(
        2 * bytes.len(),
        |i: int|
            if i % 2 == 0 {
                hex_digits()[bytes[i / 2] as int / 16]
            } else {
                hex_digits()[bytes[i / 2] as int % 16]
            },
    )
}

/// The digit for the low half of a byte.
pub fn hex_digit(byte: u8) -> (r: &'static str)
    ensures
        r@ == seq![hex_digits()[byte as int % 16]],
{
    let n: u8 = byte % 16;
    proof {
        reveal_strlit("0");
        reveal_strlit("1");
        reveal_strlit("2");
        reveal_strlit("3");
        reveal_strlit("4");
        reveal_strlit("5");
        reveal_strlit("6");
        reveal_strlit("7");
        reveal_strlit("8");
        reveal_strlit("9");
        reveal_strlit("a");
        reveal_strlit("b");
        reveal_strlit("c");
        reveal_strlit("d");
        reveal_strlit("e");
        reveal_strlit("f");
    }
    let r = if n == 0 {
        "0"
    } else if n == 1 {
        "1"
    } else if n == 2 {
        "2"
    } else if n == 3 {
        "3"
    } else if n == 4 {
        "4"
    } else if n == 5 {
        "5"
    } else if n == 6 {
        "6"
    } else if n == 7 {
        "7"
    } else if n == 8 {
        "8"
    } else if n == 9 {
        "9"
    } else if n == 10 {
        "a"
    } else if n == 11 {
        "b"
    } else if n == 12 {
        "c"
    } else if n == 13 {
        "d"
    } else if n == 14 {
        "e"
    } else {
        "f"
    };
    assert(r@ =~= seq![hex_digits()[byte as int % 16]]);
    r
}

/// Writes bytes out as hexadecimal digits.
pub fn to_hex(bytes: &[u8]) -> (r: String)
    ensures
        r@ == hex_of(bytes@),
{
    let mut out = String::new();
    let mut i: usize = 0;
    while i < bytes.len()
        invariant
            i <= bytes.len(),
            out@ == hex_of(bytes@.subrange(0, i as int)),
        decreases bytes.len() - i,
    {
        let b: u8 = bytes[i];
        let ghost before = out@;
        out.append(hex_digit(b / 16));
        out.append(hex_digit(b % 16));
        assert(out@ =~= hex_of(bytes@.subrange(0, i + 1))) by {
            let grown = hex_of(bytes@.subrange(0, i + 1));
            assert(out@.len() == grown.len());
            assert forall|k: int| 0 <= k < grown.len() implies out@[k] == grown[k] by {
                if k < 2 * i {
                    assert(out@[k] == before[k]);
                    assert(bytes@.subrange(0, i + 1)[k / 2] == bytes@.subrange(0, i as int)[k
                        / 2]);
                }
            }
        }
        i += 1;
    }
    assert(bytes@.subrange(0, i as int) =~= bytes@);
    out
}

/// The MD5 digest of `text`, written out as hexadecimal digits.
pub fn md5_hex(text: &str) -> (r: String)
    ensures
        r@ == hex_of(md5_digest(text@)),
        r@.len() == 32,
{
    let digest = md5_of(text);
    to_hex(digest.as_slice())
}

} // verus!
