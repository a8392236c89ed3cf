//! Subsonic token authentication: every request carries a random salt and
//! the token `md5(password + salt)` in lowercase hex.

use rand::RngExt;
use rand::rngs::ThreadRng;
use vstd::prelude::*;
use crate::text::push_char;

verus! {

/// `rand::rngs::ThreadRng`, the thread-local random generator.
#[verifier::external_type_specification]
#[verifier::external_body]
pub struct ExThreadRng(ThreadRng);

/// The MD5 digest of a byte string, as computed by `md5::compute`.
pub uninterp spec fn md5_of(data: Seq<u8>) -> Seq<u8>;

/// `md5::compute`: the 16 bytes of the MD5 digest of `data`, which depend on
/// `data` alone.
#[verifier::external_body]
fn md5_digest(data: &[u8]) -> (digest: [u8; 16])
    ensures
        digest@ == md5_of(data@),
{
    md5::compute(data).0
}

/// `rand::rng`: a handle to the thread-local random generator. Nothing is
/// stated of its state; the call panics only if the operating system cannot
/// seed the generator.
#[verifier::external_body]
fn thread_rng() -> ThreadRng {
    rand::rng()
}

/// `RngExt::random_range` over `0..bound`: some value below `bound`
/// (chance decides which).
#[verifier::external_body]
fn random_below(rng: &mut ThreadRng, bound: u8) -> (r: u8)
    requires
        bound > 0,
    ensures
        r < bound,
{
    rng.random_range(0..bound)
}

/// Lowercase hexadecimal digit for a value below sixteen.
pub open spec fn hex_digit(n: nat) -> char {
    if n < 10 {
        (n + 48) as char
    } else {
        (n - 10 + 97) as char
    }
}

/// Two lowercase hex digits per byte, high nibble first (the `{:x}` form of
/// an MD5 digest).
pub open spec fn hex_lower(bytes: Seq<u8>) -> Seq<char>
    decreases bytes.len(),
{
    if bytes.len() == 0 {
        Seq::empty()
    } else {
        hex_lower(bytes.drop_last()) + seq![
            hex_digit((bytes.last() / 16) as nat),
            hex_digit((bytes.last() % 16) as nat),
        ]
    }
}

/// The salt character for an index below 36: a digit, then a lowercase
/// letter.
pub open spec fn salt_char(idx: nat) -> char {
    if idx < 10 {
        (idx + 48) as char
    } else {
        (idx - 10 + 97) as char
    }
}

/// Whether a character may appear in a salt: an ASCII digit or lowercase
/// letter.
pub open spec fn is_salt_char(c: char) -> bool {
    ('0' <= c <= '9') || ('a' <= c <= 'z')
}

/// A salt: 16 characters, each a digit or a lowercase ASCII letter.
pub open spec fn is_salt(s: Seq<char>) -> bool {
    &&& s.len() == 16
    &&& forall|i: int| 0 <= i < s.len() ==> is_salt_char(#[trigger] s[i])
}

/// The token for `password` and `salt`: the MD5 digest of the UTF-8 bytes
/// of the password followed by those of the salt, in lowercase hex.
pub open spec fn token_of(password: Seq<char>, salt: Seq<char>) -> Seq<char> {
    hex_lower(md5_of(vstd::utf8::encode_utf8(password) + vstd::utf8::encode_utf8(salt)))
}

fn hex_digit_exec(n: u8) -> (c: char)
    requires
        n < 16,
    ensures
        c == hex_digit(n as nat),
{
    if n < 10 {
        (n + 48u8) as char
    } else {
        (n - 10 + 97u8) as char
    }
}

/// Lowercase hexadecimal form of `bytes`.
pub fn to_hex_lower(bytes: &[u8]) -> (s: String)
    ensures
        s@ == hex_lower(bytes@),
        s@.len() == 2 * bytes@.len(),
{
    let mut s = String::new();
    let mut i: usize = 0;
    while i < bytes.len()
        invariant
            i <= bytes@.len(),
            s@ == hex_lower(bytes@.take(i as int)),
            s@.len() == 2 * i,
        decreases bytes.len() - i,
    {
        let b = bytes[i];
        push_char(&mut s, hex_digit_exec(b / 16));
        push_char(&mut s, hex_digit_exec(b % 16));
        proof {
            assert(bytes@.take(i + 1).drop_last() =~= bytes@.take(i as int));
            assert(s@ =~= hex_lower(bytes@.take(i + 1)));
        }
        i = i + 1;
    }
    proof {
        assert(bytes@.take(i as int) =~= bytes@);
    }
    s
}

/// Generates the authentication token: md5(password + salt) in lowercase
/// hex (32 characters).
pub fn generate_token(password: &str, salt: &str) -> (token: String)
    ensures
        token@ == token_of(password@, salt@),
        token@.len() == 32,
{
    let mut input: Vec<u8> = Vec::new();
    let pw = password.as_bytes();
    let sb = salt.as_bytes();
    let mut i: usize = 0;
    while i < pw.len()
        invariant
            i <= pw@.len(),
            input@ == pw@.take(i as int),
        decreases pw.len() - i,
    {
        input.push(pw[i]);
        proof {
            assert(pw@.take(i as int).push(pw@[i as int]) =~= pw@.take(i + 1));
        }
        i = i + 1;
    }
    let mut j: usize = 0;
    while j < sb.len()
        invariant
            j <= sb@.len(),
            i == pw@.len(),
            input@ == pw@ + sb@.take(j as int),
        decreases sb.len() - j,
    {
        input.push(sb[j]);
        proof {
            assert(pw@ + sb@.take(j as int) + seq![sb@[j as int]] =~= pw@ + sb@.take(j + 1));
        }
        j = j + 1;
    }
    proof {
        assert(pw@.take(pw@.len() as int) =~= pw@);
        assert(input@ =~= pw@ + sb@);
    }
    let digest = md5_digest(input.as_slice());
    to_hex_lower(digest.as_slice())
}

fn salt_char_exec(idx: u8) -> (c: char)
    requires
        idx < 36,
    ensures
        c == salt_char(idx as nat),
{
    if idx < 10 {
        (48u8 + idx) as char
    } else {
        (97u8 + idx - 10) as char
    }
}

/// The salt spelled by sixteen indices below 36.
pub fn salt_from_indices(indices: &[u8; 16]) -> (salt: String)
    requires
        forall|i: int| 0 <= i < 16 ==> #[trigger] indices@[i] < 36,
    ensures
        salt@ == Seq::new(16, |i: int| salt_char(indices@[i] as nat)),
        is_salt(salt@),
{
    let mut salt = String::new();
    let mut i: usize = 0;
    while i < 16
        invariant
            i <= 16,
            forall|k: int| 0 <= k < 16 ==> #[trigger] indices@[k] < 36,
            salt@ == Seq::new(i as nat, |k: int| salt_char(indices@[k] as nat)),
        decreases 16 - i,
    {
        push_char(&mut salt, salt_char_exec(indices[i]));
        proof {
            assert(salt@ =~= Seq::new((i + 1) as nat, |k: int| salt_char(indices@[k] as nat)));
        }
        i = i + 1;
    }
    proof {
        assert forall|k: int| 0 <= k < salt@.len() implies is_salt_char(#[trigger] salt@[k]) by {
            assert(salt@[k] == salt_char(indices@[k] as nat));
        }
    }
    salt
}

/// Generates a random salt of 16 characters drawn from digits and
/// lowercase letters.
pub fn generate_salt() -> (salt: String)
    ensures
        is_salt(salt@),
{
    let mut rng = thread_rng();
    let mut indices: [u8; 16] = [0u8; 16];
    let mut i: usize = 0;
    while i < 16
        invariant
            i <= 16,
            forall|k: int| 0 <= k < 16 ==> #[trigger] indices@[k] < 36,
        decreases 16 - i,
    {
        let idx = random_below(&mut rng, 36);
        indices[i] = idx;
        i = i + 1;
    }
    salt_from_indices(&indices)
}

/// Generates authentication parameters for a Subsonic request: a random
/// salt and the token md5(password + salt).
pub fn generate_auth_params(password: &str) -> (params: (String, String))
    ensures
        is_salt(params.0@),
        params.1@ == token_of(password@, params.0@),
        params.1@.len() == 32,
{
    let salt = generate_salt();
    let token = generate_token(password, salt.as_str());
    (salt, token)
}

} // verus!
