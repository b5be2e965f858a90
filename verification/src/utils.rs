//! The secret codec and small checks: one-time secrets, their digest, the
//! comparison of a candidate with a stored digest, the clock and the format of
//! an address.

use vstd::prelude::*;
use vstd::string::*;
use vstd::utf8::*;
use vstd::slice::*;
use crate::text::{chars_of, contains_char, digit_char, digit_to_char, is_digit, string_of};

verus! {

/// The SHA-256 digest of a byte string.
pub uninterp spec fn sha256_digest(data: Seq<u8>) -> Seq<u8>;

/// The lower-case hexadecimal digit of `n`, for `0 <= n < 16`.
pub open spec fn hex_digit(n: int) -> char {
    if n < 10 {
        ((48 + n) as u8) as char
    } else {
        ((87 + n) as u8) as char
    }
}

/// The lower-case hexadecimal text of a byte string: two digits for each
/// byte, the high half first.
pub open spec fn hex_encode(data: Seq<u8>) -> Seq<char> {
    Seq::new(
        2 * data.len(),
        |i: int|
            if i % 2 == 0 {
                hex_digit(data[i / 2] as int / 16)
            } else {
                hex_digit(data[i / 2] as int % 16)
            },
    )
}

/// The stored digest of a secret: the hexadecimal text of the SHA-256 digest
/// of its UTF-8 bytes.
pub open spec fn otp_digest(secret: Seq<char>) -> Seq<char> {
    hex_encode(sha256_digest(encode_utf8(secret)))
}

/// Tells whether a candidate answers a stored digest.
pub open spec fn verify_spec(candidate: Seq<char>, digest: Seq<char>) -> bool {
    otp_digest(candidate) == digest
}

/// The six-digit numeral of `n`, with zeros in front where `n` is short.
pub open spec fn six_digits(n: nat) -> Seq<char> {
    seq![
        digit_char(((n / 100000) % 10) as int),
        digit_char(((n / 10000) % 10) as int),
        digit_char(((n / 1000) % 10) as int),
        digit_char(((n / 100) % 10) as int),
        digit_char(((n / 10) % 10) as int),
        digit_char((n % 10) as int),
    ]
}

/// A secret is well formed when it is exactly six ASCII digits.
pub open spec fn is_six_digits(s: Seq<char>) -> bool {
    &&& s.len() == 6
    &&& forall|i: int| 0 <= i < s.len() ==> is_digit(#[trigger] s[i])
}

/// The basic format check of an address: it holds an `@` and a `.`, and its
/// UTF-8 text is longer than five bytes.
pub open spec fn is_valid_email_spec(email: Seq<char>) -> bool {
    &&& email.contains('@')
    &&& email.contains('.')
    &&& encode_utf8(email).len() > 5
}

/// The shape of a hyphenated identifier: 36 characters, a hyphen at places 8,
/// 13, 18 and 23, and a lower-case hexadecimal digit at every other place.
pub open spec fn is_hyphenated_id(s: Seq<char>) -> bool {
    &&& s.len() == 36
    &&& forall|i: int|
        0 <= i < 36 ==> if i == 8 || i == 13 || i == 18 || i == 23 {
            #[trigger] s[i] == '-'
        } else {
            is_digit(s[i]) || 'a' <= s[i] <= 'f'
        }
}

/// `rand::rngs::ThreadRng`, the generator of a thread. It is carried from
/// `thread_rng` to `gen_range` and never looked into.
#[verifier::external_type_specification]
#[verifier::external_body]
pub struct ExThreadRng(rand::rngs::ThreadRng);

/// `std::time::SystemTimeError`, the error of a clock that stands before the
/// time it is compared with. It is carried to `duration` and never looked
/// into.
#[verifier::external_type_specification]
#[verifier::external_body]
pub struct ExSystemTimeError(std::time::SystemTimeError);

/// `rand::thread_rng` hands out the generator of the current thread, seeded
/// by the system. Nothing is claimed of it.
pub assume_specification[ rand::thread_rng ]() -> rand::rngs::ThreadRng;

/// `Rng::gen_range` on an inclusive range of `u32`: a number drawn from the
/// range. It panics on an empty range, which `requires` leaves out; which
/// number comes is not stated.
#[verifier::external_body]
fn gen_range_inclusive(rng: &mut rand::rngs::ThreadRng, low: u32, high: u32) -> (n: u32)
    requires
        low <= high,
    ensures
        low <= n <= high,
{
    rand::Rng::gen_range(rng, low..=high)
}

/// `Digest::digest` of `sha2::Sha256`: the SHA-256 digest of `data`.
#[verifier::external_body]
fn sha256(data: &[u8]) -> (r: Vec<u8>)
    ensures
        r@ == sha256_digest(data@),
{
    <sha2::Sha256 as sha2::Digest>::digest(data).to_vec()
}

/// `hex::encode`: each byte as two lower-case hexadecimal digits, the high
/// half first.
#[verifier::external_body]
fn hex_text(data: &[u8]) -> (r: String)
    ensures
        r@ == hex_encode(data@),
{
    hex::encode(data)
}

/// `Uuid::new_v4` rendered by `to_string`: a fresh random identifier in
/// hyphenated lower-case form. Which identifier comes is not stated.
#[verifier::external_body]
pub fn generate_challenge_id() -> (r: String)
    ensures
        is_hyphenated_id(r@),
{
    uuid::Uuid::new_v4().to_string()
}

/// `SystemTime::elapsed` of `UNIX_EPOCH`: the time from the epoch to now, or
/// the error that tells how far the clock stands before the epoch.
#[verifier::external_body]
fn epoch_elapsed() -> Result<std::time::Duration, std::time::SystemTimeError> {
    std::time::UNIX_EPOCH.elapsed()
}

/// `Duration::as_secs`: the whole seconds of a duration.
pub assume_specification[ std::time::Duration::as_secs ](d: &std::time::Duration) -> u64;

/// `SystemTimeError::duration`: how far the second time stood after the first.
pub assume_specification[ std::time::SystemTimeError::duration ](
    e: &std::time::SystemTimeError,
) -> std::time::Duration;

/// Mints a one-time secret: six decimal digits, drawn from `000000` to
/// `999999` by the generator of the current thread.
pub fn generate_otp() -> (r: String)
    ensures
        is_six_digits(r@),
        exists|n: nat| n <= 999999 && r@ == six_digits(n),
{
    let mut rng = rand::thread_rng();
    let n = gen_range_inclusive(&mut rng, 0, 999999);
    format_otp(n)
}

/// Writes the last six decimal digits of `n` as a secret, with zeros in
/// front.
pub fn format_otp(n: u32) -> (r: String)
    ensures
        r@ == six_digits(n as nat),
        is_six_digits(r@),
{
    let mut digits: Vec<char> = Vec::new();
    digits.push(digit_to_char(((n / 100000) % 10) as u8));
    digits.push(digit_to_char(((n / 10000) % 10) as u8));
    digits.push(digit_to_char(((n / 1000) % 10) as u8));
    digits.push(digit_to_char(((n / 100) % 10) as u8));
    digits.push(digit_to_char(((n / 10) % 10) as u8));
    digits.push(digit_to_char((n % 10) as u8));
    proof {
        assert(digits@ =~= six_digits(n as nat));
    }
    string_of(&digits)
}

/// The digest under which a secret is stored.
pub fn hash_otp(otp: &str) -> (r: String)
    ensures
        r@ == otp_digest(otp@),
{
    let digest = sha256(otp.as_bytes());
    hex_text(digest.as_slice())
}

/// Tells whether `otp` answers the stored digest `hash`. The digest of the
/// candidate is compared with the stored one in constant time.
pub fn verify_otp(otp: &str, hash: &str) -> (r: bool)
    ensures
        r == verify_spec(otp@, hash@),
{
    let otp_hash = hash_otp(otp);
    constant_time_eq(otp_hash.as_str(), hash)
}

/// Folding one more pair of bytes into the accumulator leaves it zero exactly
/// when it was zero and the two bytes are equal.
proof fn lemma_fold_xor(acc: u8, x: u8, y: u8)
    ensures
        ((acc | (x ^ y)) == 0) <==> (acc == 0 && x == y),
{
    assert(((acc | (x ^ y)) == 0) <==> (acc == 0 && x == y)) by (bit_vector);
}

/// Two strings with the same UTF-8 bytes hold the same characters.
pub proof fn lemma_same_bytes_same_chars(a: Seq<char>, b: Seq<char>)
    requires
        encode_utf8(a) == encode_utf8(b),
    ensures
        a == b,
{
    encode_utf8_decode_utf8(a);
    encode_utf8_decode_utf8(b);
}

/// Compares two strings byte by byte without leaving early: strings of
/// different byte lengths differ; otherwise every pair of bytes is folded
/// into one accumulator, which is tested once at the end.
pub fn constant_time_eq(a: &str, b: &str) -> (r: bool)
    ensures
        r == (a@ == b@),
{
    let x = a.as_bytes();
    let y = b.as_bytes();
    if x.len() != y.len() {
        return false;
    }
    let mut result: u8 = 0;
    let mut i: usize = 0;
    while i < x.len()
        invariant
            i <= x.len(),
            x.len() == y.len(),
            (result == 0) <==> (forall|j: int| 0 <= j < i ==> x@[j] == y@[j]),
        decreases x.len() - i,
    {
        proof {
            lemma_fold_xor(result, x@[i as int], y@[i as int]);
        }
        result = result | (x[i] ^ y[i]);
        i += 1;
    }
    proof {
        if result == 0 {
            assert(x@ =~= y@);
            lemma_same_bytes_same_chars(a@, b@);
        }
    }
    result == 0
}

/// The seconds since the Unix epoch by the system clock; negative where the
/// clock stands before the epoch. The clock is read as the time that has
/// passed since the epoch, or as the time that is left until it, and
/// [`timestamp_from_elapsed`] makes the timestamp of that. Nothing is stated
/// of the result: every timestamp is one that some clock shows.
pub fn current_timestamp() -> i64 {
    let elapsed = match epoch_elapsed() {
        Ok(after) => Ok(after.as_secs()),
        Err(before) => Err(before.duration().as_secs()),
    };
    timestamp_from_elapsed(elapsed)
}

/// The timestamp of a clock that stands `after` whole seconds after the Unix
/// epoch, or `before` whole seconds before it: the seconds themselves, with
/// a minus sign before the epoch, and the nearest timestamp where they do not
/// fit.
pub open spec fn epoch_seconds(elapsed: Result<u64, u64>) -> i64 {
    match elapsed {
        Ok(after) => if after > i64::MAX {
            i64::MAX
        } else {
            after as i64
        },
        Err(before) => if before > i64::MAX {
            i64::MIN
        } else {
            (-(before as int)) as i64
        },
    }
}

/// The timestamp of a clock, from the whole seconds that it stands after the
/// Unix epoch (`Ok`) or before it (`Err`).
pub fn timestamp_from_elapsed(elapsed: Result<u64, u64>) -> (r: i64)
    ensures
        r == epoch_seconds(elapsed),
        elapsed matches Ok(after) ==> r >= 0 && (after <= i64::MAX ==> r == after),
        elapsed matches Err(before) ==> r <= 0 && (before <= i64::MAX ==> r == -before),
{
    match elapsed {
        Ok(after) => {
            if after > 9223372036854775807u64 {
                i64::MAX
            } else {
                after as i64
            }
        },
        Err(before) => {
            if before > 9223372036854775807u64 {
                i64::MIN
            } else {
                -(before as i64)
            }
        },
    }
}

/// The basic format check of an address.
pub fn is_valid_email(email: &str) -> (r: bool)
    ensures
        r == is_valid_email_spec(email@),
{
    contains_char(email, '@') && contains_char(email, '.') && email.as_bytes().len() > 5
}

/// Tells whether a candidate answer has the form of a secret: six ASCII
/// digits.
pub fn is_otp_format(answer: &str) -> (r: bool)
    ensures
        r == is_six_digits(answer@),
{
    let chars = chars_of(answer);
    if chars.len() != 6 {
        return false;
    }
    let mut i: usize = 0;
    while i < 6
        invariant
            i <= 6,
            chars.len() == 6,
            chars@ == answer@,
            forall|j: int| 0 <= j < i ==> is_digit(#[trigger] chars@[j]),
        decreases 6 - i,
    {
        let c = chars[i];
        if !('0' <= c && c <= '9') {
            proof {
                assert(!is_digit(answer@[i as int]));
            }
            return false;
        }
        i += 1;
    }
    true
}

/// A hexadecimal digit tells its value: two values below sixteen with the
/// same digit are the same.
proof fn lemma_hex_digit_injective(m: int, n: int)
    requires
        0 <= m < 16,
        0 <= n < 16,
        hex_digit(m) == hex_digit(n),
    ensures
        m == n,
{
    let a = hex_digit(m);
    let b = hex_digit(n);
    assert(a as u8 == if m < 10 {
        48 + m
    } else {
        87 + m
    });
    assert(b as u8 == if n < 10 {
        48 + n
    } else {
        87 + n
    });
}

/// The hexadecimal text tells the bytes: two byte strings with the same text
/// are the same.
pub proof fn lemma_hex_encode_injective(a: Seq<u8>, b: Seq<u8>)
    requires
        hex_encode(a) == hex_encode(b),
    ensures
        a == b,
{
    assert(hex_encode(a).len() == 2 * a.len());
    assert(hex_encode(b).len() == 2 * b.len());
    assert(a.len() == b.len());
    assert forall|i: int| 0 <= i < a.len() implies a[i] == b[i] by {
        let x = a[i] as int;
        let y = b[i] as int;
        assert(hex_encode(a)[2 * i] == hex_digit(x / 16));
        assert(hex_encode(b)[2 * i] == hex_digit(y / 16));
        assert(hex_encode(a)[2 * i + 1] == hex_digit(x % 16));
        assert(hex_encode(b)[2 * i + 1] == hex_digit(y % 16));
        lemma_hex_digit_injective(x / 16, y / 16);
        lemma_hex_digit_injective(x % 16, y % 16);
    }
    assert(a =~= b);
}

/// Every secret answers its own digest.
pub proof fn lemma_verify_accepts_own_digest(secret: Seq<char>)
    ensures
        verify_spec(secret, otp_digest(secret)),
{
}

/// A candidate answers the digest of a secret exactly when the two have the
/// same SHA-256 digest. So a candidate whose SHA-256 digest differs from that
/// of the secret is refused.
pub proof fn lemma_verify_rejects_other_digest(candidate: Seq<char>, secret: Seq<char>)
    requires
        candidate != secret,
        sha256_digest(encode_utf8(candidate)) != sha256_digest(encode_utf8(secret)),
    ensures
        !verify_spec(candidate, otp_digest(secret)),
{
    if verify_spec(candidate, otp_digest(secret)) {
        lemma_hex_encode_injective(
            sha256_digest(encode_utf8(candidate)),
            sha256_digest(encode_utf8(secret)),
        );
    }
}

/// A secret that was minted has the form that an answer is checked for.
pub proof fn lemma_six_digits_well_formed(n: nat)
    ensures
        is_six_digits(six_digits(n)),
{
}

} // verus!
