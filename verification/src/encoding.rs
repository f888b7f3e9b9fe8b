//! Base64 text for the bytes of a picture.

use vstd::prelude::*;

use base64::Engine;

verus! {

/// The letter of the standard base64 alphabet for a number below 64.
pub open spec fn base64_letter(n: int) -> char {
    if n < 26 {
        (65 + n) as char
    } else if n < 52 {
        (97 + (n - 26)) as char
    } else if n < 62 {
        (48 + (n - 52)) as char
    } else if n == 62 {
        '+'
    } else {
        '/'
    }
}

/// The six bits of `bytes` that the letter at position `k` stands for. Missing
/// bits at the end count as zeros.
pub open spec fn sextet(bytes: Seq<u8>, k: int) -> int {
    let i = 6 * k / 8;
    let high = bytes[i] as int;
    let low = if i + 1 < bytes.len() {
        bytes[i + 1] as int
    } else {
        0
    };
    let below = if k % 4 == 0 {
        1024
    } else if k % 4 == 1 {
        16
    } else if k % 4 == 2 {
        64int
    } else {
        256
    };
    (high * 256 + low) / below % 64
}

/// How many characters the base64 text of `n` bytes has, padding included.
pub open spec fn base64_length(n: nat) -> nat {
    4 * ((n + 2) / 3)
}

/// The base64 text of `bytes`: one letter for six bits, in the standard
/// alphabet, padded with `=` to whole groups of four.
pub open spec fn base64_text(bytes: Seq<u8>) -> Seq<char> {
    Seq::new(
        base64_length(bytes.len()),
        |k: int|
            if 6 * k < 8 * bytes.len() {
                base64_letter(sextet(bytes, k))
            } else {
                '='
            },
    )
}

/// Whether the base64 text of `n` bytes fits in a string of this machine.
pub open spec fn encodable(n: nat) -> bool {
    base64_length(n) <= isize::MAX
}

/// Whether the base64 text of `n` bytes fits in a string of this machine.
pub(crate) fn can_encode(n: usize) -> (yes: bool)
    ensures
        yes == encodable(n as nat),
{
    let groups: usize = n / 3 + if n % 3 == 0 {
        0
    } else {
        1
    };
    groups <= isize::MAX as usize / 4
}

/// Calls `encode` of `base64::engine::general_purpose::STANDARD`, which writes
/// the standard alphabet with padding. It panics where the text would not fit in
/// memory that a string can span.
#[verifier::external_body]
pub(crate) fn encode_base64(bytes: &Vec<u8>) -> (text: String)
    requires
        encodable(bytes@.len()),
    ensures
        text@ == base64_text(bytes@),
{
    base64::engine::general_purpose::STANDARD.encode(bytes)
}

/// Law: the bytes that can be sent are those whose base64 text, four characters
/// for every three bytes begun, fits in a string of this machine.
pub proof fn encodable_as_far_as_a_string_goes(n: nat)
    ensures
        encodable(n) <==> n <= isize::MAX / 4 * 3,
{
}

/// The number below 64 that a letter of the standard base64 alphabet stands for.
/// Padding stands for zero.
pub open spec fn letter_value(letter: char) -> int {
    if 'A' <= letter <= 'Z' {
        letter as u32 - 'A' as u32
    } else if 'a' <= letter <= 'z' {
        26 + (letter as u32 - 'a' as u32)
    } else if '0' <= letter <= '9' {
        52 + (letter as u32 - '0' as u32)
    } else if letter == '+' {
        62
    } else if letter == '/' {
        63
    } else {
        0
    }
}

proof fn lemma_letter(n: int)
    requires
        0 <= n < 64,
    ensures
        letter_value(base64_letter(n)) == n,
        base64_letter(n) != '=',
{
}

proof fn lemma_group(a: u32, b: u32, c: u32, next: u32)
    requires
        a < 256,
        b < 256,
        c < 256,
        next < 256,
    ensures
        (a * 256 + b) / 1024 % 64 * 262144 + (a * 256 + b) / 16 % 64 * 4096 + (b * 256 + c) / 64
            % 64 * 64 + (c * 256 + next) / 256 % 64 == a * 65536 + b * 256 + c,
{
    assert((a * 256 + b) / 1024 % 64 * 262144 + (a * 256 + b) / 16 % 64 * 4096 + (b * 256 + c) / 64
        % 64 * 64 + (c * 256 + next) / 256 % 64 == a * 65536 + b * 256 + c) by (bit_vector)
        requires
            a < 256,
            b < 256,
            c < 256,
            next < 256,
    ;
}

/// Law: base64 text gives every byte back. The letters of each group of four
/// stand for three bytes, six bits each, where bytes behind the end count as
/// zeros; and padding stands exactly where there is no bit left to tell.
pub proof fn base64_text_gives_the_bytes_back(bytes: Seq<u8>, group: int)
    requires
        0 <= group,
        3 * group < bytes.len(),
    ensures
        ({
            let letters = base64_text(bytes);
            let byte = |i: int|
                if i < bytes.len() {
                    bytes[i] as int
                } else {
                    0
                };
            let k = 4 * group;
            let i = 3 * group;
            &&& letters.len() == 4 * ((bytes.len() + 2) / 3)
            &&& k + 3 < letters.len()
            &&& letter_value(letters[k]) * 262144 + letter_value(letters[k + 1]) * 4096
                + letter_value(letters[k + 2]) * 64 + letter_value(letters[k + 3]) == byte(i)
                * 65536 + byte(i + 1) * 256 + byte(i + 2)
            &&& letters[k] != '=' && letters[k + 1] != '='
            &&& letters[k + 2] == '=' <==> i + 1 == bytes.len()
            &&& letters[k + 3] == '=' <==> i + 2 >= bytes.len()
        }),
{
    let letters = base64_text(bytes);
    let k = 4 * group;
    let i = 3 * group;
    let a = bytes[i] as int;
    let b = if i + 1 < bytes.len() {
        bytes[i + 1] as int
    } else {
        0
    };
    let c = if i + 2 < bytes.len() {
        bytes[i + 2] as int
    } else {
        0
    };
    let next = if i + 3 < bytes.len() {
        bytes[i + 3] as int
    } else {
        0
    };
    lemma_group(a as u32, b as u32, c as u32, next as u32);
    assert(sextet(bytes, k) == (a * 256 + b) / 1024 % 64);
    assert(sextet(bytes, k + 1) == (a * 256 + b) / 16 % 64);
    lemma_letter(sextet(bytes, k));
    lemma_letter(sextet(bytes, k + 1));
    if i + 1 < bytes.len() {
        assert(sextet(bytes, k + 2) == (b * 256 + c) / 64 % 64);
        lemma_letter(sextet(bytes, k + 2));
    }
    if i + 2 < bytes.len() {
        assert(sextet(bytes, k + 3) == (c * 256 + next) / 256 % 64);
        lemma_letter(sextet(bytes, k + 3));
    }
}

} // verus!
