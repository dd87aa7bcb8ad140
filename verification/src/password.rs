//! Salted password hashing and verification with Argon2.

use vstd::prelude::*;
use argon2::Argon2;
use argon2::PasswordHasher;
use argon2::PasswordVerifier;
use argon2::password_hash::PasswordHash;
use argon2::password_hash::SaltString;

verus! {

/// The error of the `password_hash` crate, carried through unopened.
#[verifier::external_type_specification]
#[verifier::external_body]
pub struct ExPasswordHashError(argon2::password_hash::Error);

/// The hash string that Argon2 with its default parameters derives from a
/// password and a salt given in B64 text, or `None` where it refuses them.
pub uninterp spec fn argon2_hash(password: Seq<char>, salt: Seq<char>) -> Option<Seq<char>>;

/// Whether Argon2, run with the parameters and the salt that a stored hash
/// string embeds, derives that string's digest from the password. False where
/// the string is no hash string at all. It is asked only of strings that
/// begin with the default head.
pub uninterp spec fn argon2_verifies(password_hash: Seq<char>, password: Seq<char>) -> bool;

/// A character of the unpadded standard base-64 alphabet.
pub open spec fn is_b64_char(c: char) -> bool {
    ('A' <= c && c <= 'Z') || ('a' <= c && c <= 'z') || ('0' <= c && c <= '9') || c == '+' || c
        == '/'
}

/// The shape of a freshly drawn salt: sixteen bytes in 22 base-64 characters.
pub open spec fn is_fresh_salt(salt: Seq<char>) -> bool {
    salt.len() == 22 && forall|i: int| 0 <= i < salt.len() ==> is_b64_char(#[trigger] salt[i])
}

/// What every hash string made with the default parameters begins with: the
/// algorithm, its version and its costs.
pub open spec fn phc_head() -> Seq<char> {
    "$argon2id$v=19$m=19456,t=2,p=1$"@
}

/// Whether `text` begins with the head, so that it names the algorithm, the
/// version and the costs that this library hashes with and no others.
pub open spec fn has_default_head(text: Seq<char>) -> bool {
    text.len() >= 31 && text.subrange(0, 31) == phc_head()
}

/// Whether `password` is accepted for the stored `password_hash`: the hash
/// string carries the default parameters, and Argon2 derives its digest from
/// the password under the salt it embeds.
pub open spec fn password_matches(password_hash: Seq<char>, password: Seq<char>) -> bool {
    has_default_head(password_hash) && argon2_verifies(password_hash, password)
}

/// Whether `text` has the form of a hash string made under `salt`: the head,
/// the salt as given, a `$`, and a digest of 32 bytes in 43 base-64
/// characters.
pub open spec fn embeds_salt(text: Seq<char>, salt: Seq<char>) -> bool {
    &&& text.len() == 31 + salt.len() + 1 + 43
    &&& text.subrange(0, 31) == phc_head()
    &&& text.subrange(31, 31 + salt.len() as int) == salt
    &&& text[31 + salt.len() as int] == '$'
}

/// Hash strings made under different salts differ, whatever the passwords.
pub proof fn law_salt_tells_hashes_apart(
    first: Seq<char>,
    first_salt: Seq<char>,
    second: Seq<char>,
    second_salt: Seq<char>,
)
    requires
        embeds_salt(first, first_salt),
        embeds_salt(second, second_salt),
        first_salt != second_salt,
    ensures
        first != second,
{
}

/// What a hashing attempt produced, as a value of the model.
pub open spec fn hash_outcome(hashed: Result<String, argon2::password_hash::Error>) -> Option<
    Seq<char>,
> {
    match hashed {
        Ok(text) => Some(text@),
        Err(_) => None,
    }
}

/// Hashes `password` under a salt drawn for this call.
///
/// The result is what Argon2 derives under some fresh salt. A hash that
/// comes back describes itself: it embeds the parameters and the salt, and
/// it verifies against the password it was made from.
pub fn hash_password(password: &str) -> (hashed: Result<String, argon2::password_hash::Error>)
    ensures
        exists|salt: Seq<char>|
            {
                &&& is_fresh_salt(salt)
                &&& hash_outcome(hashed) == #[trigger] argon2_hash(password@, salt)
                &&& hashed matches Ok(text) ==> embeds_salt(text@, salt)
            },
        hashed matches Ok(text) ==> password_matches(text@, password@),
{
    let salt = fresh_salt();
    let hashed = hash_with_salt(password, salt.as_str());
    assert(hash_outcome(hashed) == argon2_hash(password@, salt@));
    hashed
}

/// Tells whether `text` begins with the head of the default parameters.
pub fn begins_with_head(text: &str) -> (yes: bool)
    ensures
        yes == has_default_head(text@),
{
    let head = "$argon2id$v=19$m=19456,t=2,p=1$";
    proof {
        reveal_strlit("$argon2id$v=19$m=19456,t=2,p=1$");
    }
    if text.unicode_len() < 31 {
        return false;
    }
    let mut i: usize = 0;
    while i < 31
        invariant
            i <= 31,
            head@ == phc_head(),
            head@.len() == 31,
            text@.len() >= 31,
            forall|j: int| 0 <= j < i ==> text@[j] == head@[j],
        decreases 31 - i,
    {
        if text.get_char(i) != head.get_char(i) {
            assert(text@.subrange(0, 31)[i as int] != phc_head()[i as int]);
            return false;
        }
        i += 1;
    }
    assert(text@.subrange(0, 31) =~= head@);
    true
}

/// Tells whether `password` is the one that `password_hash` was derived from,
/// by deriving again under the salt embedded in the hash.
///
/// A hash string that does not begin with the default parameters is refused
/// unread, so that a stored string cannot choose the costs of checking it.
pub fn verify_password(password_hash: &str, password: &str) -> (accepted: bool)
    ensures
        accepted == password_matches(password_hash@, password@),
{
    if begins_with_head(password_hash) {
        rederive_and_compare(password_hash, password)
    } else {
        false
    }
}

/// Calls `SaltString::generate` on `rand::thread_rng()`: sixteen random bytes,
/// encoded as unpadded base-64 text. Only the shape of the text is claimed.
#[verifier::external_body]
fn fresh_salt() -> (salt: String)
    ensures
        is_fresh_salt(salt@),
{
    SaltString::generate(&mut rand::thread_rng()).as_str().to_owned()
}

/// Calls `Argon2::default().hash_password` on the password's bytes and the
/// salt, and formats the result as a hash string. The result is a function of
/// the two texts. A hash string made here consists of the default
/// parameters, the salt as it was given and the digest, so that deriving
/// again from the same password under what the string embeds yields the
/// same digest.
#[verifier::external_body]
fn hash_with_salt(password: &str, salt: &str) -> (hashed: Result<
    String,
    argon2::password_hash::Error,
>)
    ensures
        hash_outcome(hashed) == argon2_hash(password@, salt@),
        hashed matches Ok(text) ==> embeds_salt(text@, salt@),
        hashed matches Ok(text) ==> argon2_verifies(text@, password@),
{
    let salt = SaltString::from_b64(salt)?;
    let hash = Argon2::default().hash_password(password.as_bytes(), &salt)?;
    Ok(hash.to_string())
}

/// Parses the hash string with `PasswordHash::new` and calls
/// `Argon2::default().verify_password` on it; true exactly where both succeed.
/// It is called only on strings that begin with the default head: there the
/// algorithm, version and costs that the verifier reads are the default
/// ones, whatever follows the head.
#[verifier::external_body]
fn rederive_and_compare(password_hash: &str, password: &str) -> (accepted: bool)
    requires
        has_default_head(password_hash@),
    ensures
        accepted == argon2_verifies(password_hash@, password@),
{
    match PasswordHash::new(password_hash) {
        Ok(parsed) => Argon2::default().verify_password(password.as_bytes(), &parsed).is_ok(),
        Err(_) => false,
    }
}

} // verus!
