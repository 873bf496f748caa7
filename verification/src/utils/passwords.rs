//! Password hashing with Argon2.
//!
//! The hashing itself is the `argon2` crate's. This module fixes how the
//! service uses it: a fresh salt for every hash, the crate's default
//! parameters, and one meaning for every way in which a check can fail.

use crate::utils::text::{decimal_up_to, parse_u32, same_text};
use argon2::password_hash::rand_core::{OsRng, RngCore};
use argon2::password_hash::{
    Error, PasswordHash, PasswordHasher, PasswordVerifier, Salt, SaltString,
};
use argon2::Argon2;
use vstd::prelude::*;

verus! {

/// `argon2::password_hash::Error`, as the crate reports it. The library maps
/// it to a [`HashingError`] by the step that failed.
#[verifier::external_type_specification]
#[verifier::external_body]
pub struct ExPasswordHashError(Error);

/// `rand_core::Error`, the failure of the operating system's random source.
/// The library maps it to [`HashingError::HashingFailed`].
#[verifier::external_type_specification]
#[verifier::external_body]
pub struct ExRandomError(argon2::password_hash::rand_core::Error);

/// Why a password could not be hashed or checked.
#[derive(Clone, Copy, Debug, PartialEq, Eq, Structural)]
pub enum HashingError {
    /// The stored text is not an encoded password hash.
    MalformedHash,
    /// The hash could not be computed.
    HashingFailed,
}

/// The greatest degree of parallelism that Argon2 defines: 2^24 - 1 lanes.
pub const MAX_PARALLELISM: u32 = 0xFF_FFFF;

/// The number of bytes of a salt that the library draws.
pub const SALT_LENGTH: usize = 16;

/// The least number of bytes of a salt that Argon2 takes.
pub const MIN_SALT_LENGTH: usize = 8;

/// The greatest number of bytes of a salt that fits into an encoded hash.
pub const MAX_SALT_LENGTH: usize = 48;

/// Whether `PasswordHash::new` accepts `encoded` as a hash in PHC string
/// format.
pub uninterp spec fn phc_parses(encoded: Seq<char>) -> bool;

/// The parameters that `encoded` names, where it parses: every pair that
/// `ParamsString::iter` yields, in the order of the text, each as its name
/// and its value. A text may name a parameter more than once.
pub uninterp spec fn phc_params(encoded: Seq<char>) -> Option<Seq<(Seq<char>, Seq<char>)>>;

/// The salt that `encoded` holds, decoded (`Salt::decode_b64`), where
/// `encoded` parses and holds one.
pub uninterp spec fn phc_salt(encoded: Seq<char>) -> Option<Seq<u8>>;

/// The encoded hash that Argon2 with default settings makes of `password`
/// and `salt` (`PasswordHasher::hash_password`), where it makes one.
pub uninterp spec fn argon2_encoding(password: Seq<char>, salt: Seq<u8>) -> Option<Seq<char>>;

/// Whether Argon2 with default settings, run on `password` with the salt and
/// parameters that `encoded` names, yields the output that `encoded` holds
/// (`PasswordVerifier::verify_password` returns `Ok`).
pub uninterp spec fn argon2_accepts(password: Seq<char>, encoded: Seq<char>) -> bool;

/// The parameters that a hash of this library names: Argon2's defaults of
/// 19 MiB of memory, two passes and one lane.
pub open spec fn default_params() -> Seq<(Seq<char>, Seq<char>)> {
    seq![("m"@, "19456"@), ("t"@, "2"@), ("p"@, "1"@)]
}

/// The names and values of a list of parameters.
pub open spec fn params_text(params: Seq<(String, String)>) -> Seq<(Seq<char>, Seq<char>)> {
    params.map_values(|pair: (String, String)| (pair.0@, pair.1@))
}

/// The degree of parallelism that a check runs with, where the parameters
/// name one: the number that the last parameter named `p` writes. Argon2
/// reads the parameters in their order, and a later `p` replaces an earlier
/// one.
pub open spec fn named_lanes(params: Seq<(Seq<char>, Seq<char>)>) -> Option<nat>
    decreases params.len(),
{
    if params.len() == 0 {
        None
    } else if params.last().0 == "p"@ {
        decimal_up_to(params.last().1, u32::MAX as nat)
    } else {
        named_lanes(params.drop_last())
    }
}

/// Whether a degree of parallelism, where one is named, is one that Argon2
/// defines.
pub open spec fn lanes_in_range(lanes: Option<nat>) -> bool {
    lanes matches Some(n) ==> n <= MAX_PARALLELISM
}

/// Whether the check can be run on `encoded`: whether the parallelism that
/// its parameters name, if they name one, is in Argon2's range.
pub open spec fn is_checkable(encoded: Seq<char>) -> bool {
    phc_params(encoded) matches Some(params) ==> lanes_in_range(named_lanes(params))
}

/// The result of hashing `password` with `salt`: the encoding that Argon2
/// makes of the two, or a failure where it makes none or the salt is not of
/// a usable length.
pub open spec fn hashed_with_salt(password: Seq<char>, salt: Seq<u8>) -> Result<
    Seq<char>,
    HashingError,
> {
    if MIN_SALT_LENGTH <= salt.len() <= MAX_SALT_LENGTH {
        match argon2_encoding(password, salt) {
            Some(encoded) => Ok(encoded),
            None => Err(HashingError::HashingFailed),
        }
    } else {
        Err(HashingError::HashingFailed)
    }
}

/// What checking `password` against `encoded` yields: an error when
/// `encoded` is no encoded hash; a mismatch when it names more lanes than
/// Argon2 defines, whatever the password; else whether the password is the
/// one that was hashed.
pub open spec fn verification(password: Seq<char>, encoded: Seq<char>) -> Result<
    bool,
    HashingError,
> {
    if !phc_parses(encoded) {
        Err(HashingError::MalformedHash)
    } else if !is_checkable(encoded) {
        Ok(false)
    } else {
        Ok(argon2_accepts(password, encoded))
    }
}

/// The text of a hash, or the error in its place.
pub open spec fn hash_text<E>(hashed: Result<String, E>) -> Result<Seq<char>, E> {
    match hashed {
        Ok(encoded) => Ok(encoded@),
        Err(e) => Err(e),
    }
}

/// Draws sixteen bytes from the operating system (`OsRng.try_fill_bytes`).
///
/// Trusted: what comes back has sixteen bytes. Nothing is claimed of the
/// bytes, and nothing of when the source fails.
#[verifier::external_body]
fn draw_salt() -> (r: Result<Vec<u8>, argon2::password_hash::rand_core::Error>)
    ensures
        r matches Ok(salt) ==> salt@.len() == SALT_LENGTH,
{
    let mut bytes = [0u8; Salt::RECOMMENDED_LENGTH];
    match OsRng.try_fill_bytes(&mut bytes) {
        Ok(()) => Ok(bytes.to_vec()),
        Err(e) => Err(e),
    }
}

/// Encodes `salt` (`SaltString::encode_b64`), hashes `password` with it and
/// `Argon2::default()` (`PasswordHasher::hash_password`), and writes the
/// result as a PHC string.
///
/// A salt of fewer than three bytes makes the crate panic and one of more
/// than 48 does not fit, so the salt's length is bounded. Trusted: the
/// result depends on the password and the salt alone. An encoding that comes
/// back parses; it names Argon2's default parameters and holds the salt; and
/// checking `password` against it succeeds, since the check repeats the same
/// computation with the salt and parameters that the encoding records.
/// Nothing is claimed of when hashing fails. The memory that the computation
/// takes is the default's, 19 MiB.
#[verifier::external_body]
fn argon2_hash(password: &str, salt: &[u8]) -> (r: Result<String, Error>)
    requires
        MIN_SALT_LENGTH <= salt@.len() <= MAX_SALT_LENGTH,
    ensures
        r matches Ok(encoded) ==> argon2_encoding(password@, salt@) == Some(encoded@),
        r is Err ==> argon2_encoding(password@, salt@) is None,
        r matches Ok(encoded) ==> {
            &&& phc_parses(encoded@)
            &&& phc_params(encoded@) == Some(default_params())
            &&& phc_salt(encoded@) == Some(salt@)
            &&& argon2_accepts(password@, encoded@)
        },
{
    match SaltString::encode_b64(salt) {
        Err(e) => Err(e),
        Ok(salt) => match Argon2::default().hash_password(password.as_bytes(), &salt) {
            Err(e) => Err(e),
            Ok(hash) => Ok(hash.to_string()),
        },
    }
}

/// Parses `encoded` (`PasswordHash::new`) and hands out its parameters
/// (`ParamsString::iter`), each as the text of its name and of its value.
///
/// Trusted: the list depends on the text alone, and there is one exactly
/// where the text parses.
#[verifier::external_body]
fn phc_params_of(encoded: &str) -> (r: Option<Vec<(String, String)>>)
    ensures
        match r {
            Some(params) => phc_params(encoded@) == Some(params_text(params@)),
            None => phc_params(encoded@) is None,
        },
        r is Some <==> phc_parses(encoded@),
{
    match PasswordHash::new(encoded) {
        Ok(parsed) => Some(
            parsed.params.iter().map(|(n, v)| (n.as_str().to_owned(), v.as_str().to_owned()))
                .collect(),
        ),
        Err(_) => None,
    }
}

/// Parses `encoded` (`PasswordHash::new`) and, where that succeeds, checks
/// `password` against it with `Argon2::default()`
/// (`PasswordVerifier::verify_password`).
///
/// The check reads the parameters in their order, keeps the last value of
/// each, and multiplies the parallelism by eight before it holds it against
/// Argon2's bound. So a text whose last `p` names more lanes than Argon2
/// defines is left out. Trusted: the outer result tells whether the text
/// parsed, the inner one whether the password was accepted; both depend on
/// the two texts alone. The time and the memory that the check takes are
/// those that the text names.
#[verifier::external_body]
fn argon2_check(password: &str, encoded: &str) -> (r: Result<Result<(), Error>, Error>)
    requires
        is_checkable(encoded@),
    ensures
        r is Ok <==> phc_parses(encoded@),
        r matches Ok(checked) ==> (checked is Ok <==> argon2_accepts(password@, encoded@)),
{
    match PasswordHash::new(encoded) {
        Ok(parsed) => Ok(Argon2::default().verify_password(password.as_bytes(), &parsed)),
        Err(e) => Err(e),
    }
}

/// The result of hashing, given what Argon2 returned.
pub fn hashing_outcome(hashed: Result<String, Error>) -> (r: Result<String, HashingError>)
    ensures
        hashed matches Ok(encoded) ==> r == Ok::<String, HashingError>(encoded),
        hashed is Err ==> r == Err::<String, HashingError>(HashingError::HashingFailed),
{
    match hashed {
        Ok(encoded) => Ok(encoded),
        Err(_) => Err(HashingError::HashingFailed),
    }
}

/// The degree of parallelism that a check runs with, where the parameters
/// name one that fits in 32 bits.
pub fn parallelism_named(params: &Vec<(String, String)>) -> (r: Option<u32>)
    ensures
        match named_lanes(params_text(params@)) {
            Some(lanes) => lanes <= u32::MAX && r == Some(lanes as u32),
            None => r is None,
        },
{
    let ghost all = params_text(params@);
    let mut i: usize = params.len();
    assert(all.take(i as int) == all);
    while i > 0
        invariant
            i <= params.len(),
            all == params_text(params@),
            named_lanes(all) == named_lanes(all.take(i as int)),
        decreases i,
    {
        let ghost seen = all.take(i as int);
        assert(seen.last() == (params@[i - 1].0@, params@[i - 1].1@));
        assert(seen.drop_last() == all.take(i - 1));
        if same_text(params[i - 1].0.as_str(), "p") {
            return parse_u32(params[i - 1].1.as_str());
        }
        i -= 1;
    }
    None
}

/// Whether a degree of parallelism, where one is named, is one that Argon2
/// defines.
pub fn parallelism_in_range(parallelism: Option<u32>) -> (r: bool)
    ensures
        r == (parallelism matches Some(lanes) ==> lanes <= MAX_PARALLELISM),
{
    match parallelism {
        Some(lanes) => lanes <= MAX_PARALLELISM,
        None => true,
    }
}

/// The result of [`verify_password`], given what parsing and checking
/// returned. Every failure of the check itself counts as a mismatch.
pub fn verification_outcome(checked: Result<Result<(), Error>, Error>) -> (r: Result<
    bool,
    HashingError,
>)
    ensures
        r == match checked {
            Ok(Ok(_)) => Ok::<bool, HashingError>(true),
            Ok(Err(_)) => Ok(false),
            Err(_) => Err(HashingError::MalformedHash),
        },
{
    match checked {
        Ok(Ok(_)) => Ok(true),
        Ok(Err(_)) => Ok(false),
        Err(_) => Err(HashingError::MalformedHash),
    }
}

/// The default parameters name one lane, which is in range.
pub proof fn default_params_are_checkable()
    ensures
        named_lanes(default_params()) == Some(1nat),
        lanes_in_range(named_lanes(default_params())),
{
    reveal_strlit("p");
    reveal_strlit("1");
    let one = "1"@;
    assert(default_params().last() == ("p"@, one));
    assert(one.len() == 1 && one[0] == '1');
    assert(crate::utils::text::signless(one) == one);
    assert(crate::utils::text::all_digits(one));
    assert(one.drop_last().len() == 0);
    assert(crate::utils::text::digits_value(one.drop_last()) == 0);
    assert(crate::utils::text::digit_value(one.last()) == 1);
    assert(crate::utils::text::digits_value(one) == 1);
}

/// Hashes `password` with the salt `salt` and returns the encoded hash.
///
/// The result is determined by the password and the salt. A hash that comes
/// back holds the salt and Argon2's default parameters, and verifies against
/// `password`. A salt of fewer than eight or more than 48 bytes is refused.
pub fn hash_password_with_salt(password: &str, salt: &[u8]) -> (r: Result<String, HashingError>)
    ensures
        hash_text(r) == hashed_with_salt(password@, salt@),
        r matches Ok(encoded) ==> {
            &&& phc_salt(encoded@) == Some(salt@)
            &&& phc_params(encoded@) == Some(default_params())
            &&& verification(password@, encoded@) == Ok::<bool, HashingError>(true)
        },
{
    if salt.len() < MIN_SALT_LENGTH || salt.len() > MAX_SALT_LENGTH {
        return Err(HashingError::HashingFailed);
    }
    proof {
        default_params_are_checkable();
    }
    hashing_outcome(argon2_hash(password, salt))
}

/// The result of [`hash_password`], given what drawing the salt returned.
pub fn hash_with_drawn_salt(
    password: &str,
    drawn: Result<Vec<u8>, argon2::password_hash::rand_core::Error>,
) -> (r: Result<String, HashingError>)
    ensures
        match drawn {
            Ok(salt) => hash_text(r) == hashed_with_salt(password@, salt@),
            Err(_) => r == Err::<String, HashingError>(HashingError::HashingFailed),
        },
        r matches Ok(encoded) ==> {
            &&& drawn matches Ok(salt) && phc_salt(encoded@) == Some(salt@)
            &&& phc_params(encoded@) == Some(default_params())
            &&& verification(password@, encoded@) == Ok::<bool, HashingError>(true)
        },
{
    match drawn {
        Ok(salt) => hash_password_with_salt(password, salt.as_slice()),
        Err(_) => Err(HashingError::HashingFailed),
    }
}

/// Hashes `password` with a fresh random salt and returns the encoded hash.
///
/// Whatever salt was drawn, the hash that comes back holds it and is the
/// hash of the password with it, and it verifies against `password`. The
/// only error is [`HashingError::HashingFailed`]: the random source or the
/// computation failed.
pub fn hash_password(password: &str) -> (r: Result<String, HashingError>)
    ensures
        r matches Ok(encoded) ==> {
            &&& verification(password@, encoded@) == Ok::<bool, HashingError>(true)
            &&& phc_params(encoded@) == Some(default_params())
            &&& phc_salt(encoded@) matches Some(salt) && salt.len() == SALT_LENGTH
                && hashed_with_salt(password@, salt) == Ok::<Seq<char>, HashingError>(encoded@)
        },
        r matches Err(e) ==> e == HashingError::HashingFailed,
{
    hash_with_drawn_salt(password, draw_salt())
}

/// Checks `password` against an encoded hash.
///
/// A hash that names more lanes than Argon2 defines matches no password;
/// the check is not run on it.
pub fn verify_password(password: &str, password_hash: &str) -> (r: Result<bool, HashingError>)
    ensures
        r == verification(password@, password_hash@),
{
    match phc_params_of(password_hash) {
        Some(params) => {
            let lanes = parallelism_named(&params);
            let in_range = parallelism_in_range(lanes);
            assert(in_range == is_checkable(password_hash@));
            if in_range {
                verification_outcome(argon2_check(password, password_hash))
            } else {
                Ok(false)
            }
        },
        None => Err(HashingError::MalformedHash),
    }
}

/// Hashing one password with two salts gives two encodings: an encoding
/// holds its salt, so encodings that hold different salts are different
/// texts.
pub proof fn different_salts_give_different_hashes(
    first_salt: Seq<u8>,
    first: Seq<char>,
    second_salt: Seq<u8>,
    second: Seq<char>,
)
    requires
        phc_salt(first) == Some(first_salt),
        phc_salt(second) == Some(second_salt),
        first_salt != second_salt,
    ensures
        first != second,
{
}

} // verus!
