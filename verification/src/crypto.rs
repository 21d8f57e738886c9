//! Credential verifier and one-time-code generator.
//!
//! Passwords are stored as a salted digest: hashing is deterministic with
//! respect to verification (the same password verifies against the stored
//! digest under the stored salt), and the caller supplies the salt from a
//! secure random source. Codes are short human-typeable alphanumeric strings
//! derived deterministically from caller-supplied entropy.

use vstd::prelude::*;

verus! {

/// One mixing step of the digest: multiply-and-add, truncated to 64 bits.
pub open spec fn mix64(acc: u64, x: u64) -> u64 {
    (((acc as int) * 0x100000001b3 + (x as int)) % 0x1_0000_0000_0000_0000) as u64
}

/// Executable mixing step, computed in 128 bits so nothing overflows.
pub(crate) fn mix64_exec(acc: u64, x: u64) -> (r: u64)
    ensures
        r == mix64(acc, x),
{
    let wide: u128 = (acc as u128) * 0x100000001b3u128 + (x as u128);
    (wide % 0x1_0000_0000_0000_0000u128) as u64
}

/// Digest of a character sequence, folded left to right from `acc`.
pub open spec fn digest_chars(s: Seq<char>, acc: u64) -> u64
    decreases s.len(),
{
    if s.len() == 0 {
        acc
    } else {
        mix64(digest_chars(s.drop_last(), acc), s.last() as u64)
    }
}

/// The salted digest of a password.
pub open spec fn digest_of(password: Seq<char>, salt: u64) -> u64 {
    digest_chars(password, mix64(salt, 0xcafe))
}

/// A stored password credential: the salt it was hashed under and the digest.
/// The plaintext itself is never stored.
#[derive(Clone, Copy, Debug, PartialEq, Eq, Structural)]
pub struct PasswordHash {
    pub salt: u64,
    pub digest: u64,
}

/// The hash that `hash_password` produces for a password under a salt.
pub open spec fn spec_hash(password: Seq<char>, salt: u64) -> PasswordHash {
    PasswordHash { salt, digest: digest_of(password, salt) }
}

/// Whether a candidate password verifies against a stored hash.
pub open spec fn spec_verify(h: PasswordHash, candidate: Seq<char>) -> bool {
    digest_of(candidate, h.salt) == h.digest
}

/// Folds the characters of `s` into the accumulator, as `digest_chars` says.
pub(crate) fn digest_chars_exec(s: &str, start: u64) -> (r: u64)
    ensures
        r == digest_chars(s@, start),
{
    let n = s.unicode_len();
    let mut acc = start;
    let mut i: usize = 0;
    while i < n
        invariant
            n == s@.len(),
            i <= n,
            acc == digest_chars(s@.subrange(0, i as int), start),
        decreases n - i,
    {
        let c = s.get_char(i);
        acc = mix64_exec(acc, c as u64);
        proof {
            assert(s@.subrange(0, i + 1 as int).drop_last() =~= s@.subrange(0, i as int));
            assert(s@.subrange(0, i + 1 as int).last() == s@[i as int]);
        }
        i = i + 1;
    }
    proof {
        assert(s@.subrange(0, n as int) =~= s@);
    }
    acc
}

/// Hashes a password under the given salt. Verification of the very same
/// password against the result always succeeds.
pub fn hash_password(password: &str, salt: u64) -> (h: PasswordHash)
    ensures
        h == spec_hash(password@, salt),
        spec_verify(h, password@),
{
    let start = mix64_exec(salt, 0xcafe);
    let digest = digest_chars_exec(password, start);
    PasswordHash { salt, digest }
}

/// Verifies a candidate password against a stored hash. Never fails on a
/// mismatch; it only reports whether the digests agree.
pub fn verify_password(h: &PasswordHash, candidate: &str) -> (r: bool)
    ensures
        r == spec_verify(*h, candidate@),
{
    let start = mix64_exec(h.salt, 0xcafe);
    let digest = digest_chars_exec(candidate, start);
    digest == h.digest
}

/// The alphabet the code generator draws from: upper-case letters and digits.
pub open spec fn code_alphabet() -> Seq<char> {
    "ABCDEFGHIJKLMNOPQRSTUVWXYZ0123456789"@
}

/// The code derived from `entropy`, `len` characters long: base-36 digits of
/// the entropy, least significant digit last.
pub open spec fn code_of(entropy: u64, len: nat) -> Seq<char>
    decreases len,
{
    if len == 0 {
        Seq::empty()
    } else {
        code_of(entropy / 36, (len - 1) as nat).push(code_alphabet()[(entropy % 36) as int])
    }
}

/// Derives a human-typeable alphanumeric code of the given length from the
/// entropy. The caller draws the entropy from a secure random source; the
/// derivation itself is deterministic.
pub fn generate_code(entropy: u64, len: usize) -> (code: String)
    ensures
        code@ == code_of(entropy, len as nat),
        code@.len() == len,
    decreases len,
{
    if len == 0 {
        let code = String::new();
        code
    } else {
        let mut code = generate_code(entropy / 36, len - 1);
        let d = (entropy % 36) as usize;
        let table: &str = "ABCDEFGHIJKLMNOPQRSTUVWXYZ0123456789";
        proof {
            reveal_strlit("ABCDEFGHIJKLMNOPQRSTUVWXYZ0123456789");
            assert(table@.len() == 36);
            assert(vstd::string::is_ascii(table));
        }
        let piece = table.substring_ascii(d, d + 1);
        code.append(piece);
        proof {
            assert(piece@ =~= seq![code_alphabet()[(entropy % 36) as int]]);
            assert(code@ =~= code_of(entropy, len as nat));
        }
        code
    }
}

} // verus!
