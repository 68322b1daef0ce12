//! Content fingerprints: what the service compares to find out that a user
//! uploads the same bytes again. A fingerprint is no integrity check.

use std::collections::hash_map::DefaultHasher;
use std::hash::BuildHasher;
use std::hash::BuildHasherDefault;
use vstd::prelude::*;
use vstd::string::*;

verus! {

/// The 64-bit digest that the standard library's default hasher, in the
/// state in which it is created, gives for a byte vector. The standard
/// library leaves the algorithm open from one release to the next, so the
/// digest is fixed for one build of the service only: fingerprints that
/// were stored by another build may not be met again.
pub uninterp spec fn content_digest(content: Seq<u8>) -> u64;

/// Calls the standard library's `BuildHasher::hash_one` on a default-built
/// `DefaultHasher`: the vector is fed to a new hasher, which is then
/// finished. Every hasher made that way starts in the same state, so
/// within one build the digest depends on the bytes alone; nothing else is
/// claimed of it, and nothing of what another build would give.
#[verifier::external_body]
fn digest_of(content: &Vec<u8>) -> (digest: u64)
    ensures
        digest == content_digest(content@),
{
    BuildHasherDefault::<DefaultHasher>::default().hash_one(content)
}

/// The lower-case hexadecimal digit of `d`, for `d` below sixteen.
pub open spec fn hex_digit(d: nat) -> char {
    if d == 0 {
        '0'
    } else if d == 1 {
        '1'
    } else if d == 2 {
        '2'
    } else if d == 3 {
        '3'
    } else if d == 4 {
        '4'
    } else if d == 5 {
        '5'
    } else if d == 6 {
        '6'
    } else if d == 7 {
        '7'
    } else if d == 8 {
        '8'
    } else if d == 9 {
        '9'
    } else if d == 10 {
        'a'
    } else if d == 11 {
        'b'
    } else if d == 12 {
        'c'
    } else if d == 13 {
        'd'
    } else if d == 14 {
        'e'
    } else {
        'f'
    }
}

/// `n` in lower-case hexadecimal, most significant digit first, without
/// leading zeros; zero is written `0`.
pub open spec fn hex_digits(n: nat) -> Seq<char>
    decreases n,
{
    if n < 16 {
        seq![hex_digit(n)]
    } else {
        hex_digits(n / 16).push(hex_digit(n % 16))
    }
}

/// The fingerprint of `content` as it is stored and compared.
pub open spec fn fingerprint_of(content: Seq<u8>) -> Seq<char> {
    hex_digits(content_digest(content) as nat)
}

fn digit_text(d: u64) -> (text: &'static str)
    requires
        d < 16,
    ensures
        text@ == seq![hex_digit(d as nat)],
{
    proof {
        reveal_strlit("0");
        reveal_strlit("1");
        reveal_strlit("2");
        reveal_strlit("3");
        reveal_strlit("4");
        reveal_strlit("5");
        reveal_strlit("6");
        reveal_strlit("7");
        reveal_strlit("8");
        reveal_strlit("9");
        reveal_strlit("a");
        reveal_strlit("b");
        reveal_strlit("c");
        reveal_strlit("d");
        reveal_strlit("e");
        reveal_strlit("f");
    }
    let text = if d == 0 {
        "0"
    } else if d == 1 {
        "1"
    } else if d == 2 {
        "2"
    } else if d == 3 {
        "3"
    } else if d == 4 {
        "4"
    } else if d == 5 {
        "5"
    } else if d == 6 {
        "6"
    } else if d == 7 {
        "7"
    } else if d == 8 {
        "8"
    } else if d == 9 {
        "9"
    } else if d == 10 {
        "a"
    } else if d == 11 {
        "b"
    } else if d == 12 {
        "c"
    } else if d == 13 {
        "d"
    } else if d == 14 {
        "e"
    } else {
        "f"
    };
    assert(text@ =~= seq![hex_digit(d as nat)]);
    text
}

/// Writes a digest in lower-case hexadecimal.
pub fn to_hex(n: u64) -> (text: String)
    ensures
        text@ == hex_digits(n as nat),
    decreases n,
{
    if n < 16 {
        String::from_str(digit_text(n))
    } else {
        let mut text = to_hex(n / 16);
        text.append(digit_text(n % 16));
        text
    }
}

/// Fingerprint of an upload's bytes.
pub fn fingerprint(content: &Vec<u8>) -> (text: String)
    ensures
        text@ == fingerprint_of(content@),
{
    to_hex(digest_of(content))
}

/// Whether `c` is one of `0`..`9`, `a`..`f`.
pub open spec fn is_hex_char(c: char) -> bool {
    exists|d: nat| d < 16 && c == hex_digit(d)
}

/// Sixteen to the power of `digits`.
pub open spec fn sixteen_to(digits: nat) -> nat
    decreases digits,
{
    if digits == 0 {
        1
    } else {
        16 * sixteen_to((digits - 1) as nat)
    }
}

/// A number below sixteen to the power of `digits` is written in at most
/// `digits` hexadecimal digits, and in at least one.
pub proof fn lemma_hex_digits(n: nat, digits: nat)
    requires
        digits >= 1,
        n < sixteen_to(digits),
    ensures
        1 <= hex_digits(n).len() <= digits,
        forall|i: int| 0 <= i < hex_digits(n).len() ==> is_hex_char(#[trigger] hex_digits(n)[i]),
    decreases n,
{
    if n >= 16 {
        assert(sixteen_to(1) == 16) by {
            reveal_with_fuel(sixteen_to, 2);
        }
        assert(digits >= 2);
        lemma_hex_digits(n / 16, (digits - 1) as nat);
    }
}

/// A fingerprint is between one and sixteen lower-case hexadecimal digits
/// long.
pub proof fn lemma_fingerprint_shape(content: Seq<u8>)
    ensures
        1 <= fingerprint_of(content).len() <= 16,
        forall|i: int|
            0 <= i < fingerprint_of(content).len() ==> is_hex_char(
                #[trigger] fingerprint_of(content)[i],
            ),
{
    assert(sixteen_to(16) == 0x1_0000_0000_0000_0000) by {
        reveal_with_fuel(sixteen_to, 17);
    }
    lemma_hex_digits(content_digest(content) as nat, 16);
}

} // verus!
