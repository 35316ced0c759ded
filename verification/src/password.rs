use argon2::password_hash::{PasswordHash, PasswordHasher, PasswordVerifier, SaltString};
use argon2::{Algorithm, Argon2, Params, Version};
use vstd::prelude::*;

verus! {

/// Memory cost of a hash, in KiB.
pub const MEMORY_COST: u32 = 15000;

/// Number of passes over the memory.
pub const TIME_COST: u32 = 2;

/// Degree of parallelism.
pub const PARALLELISM: u32 = 1;

/// Number of characters up to which every password is hashed.
pub const LONGEST_PASSWORD: usize = 0x3FFF_FFFF;

/// What every hash of the library begins with: the algorithm, its version
/// and the three costs. The salt and the digest follow.
pub const PHC_PREFIX: &'static str = "$argon2id$v=19$m=15000,t=2,p=1$";

/// Number of characters of a digest: thirty-two bytes in base 64, unpadded.
pub const DIGEST_LENGTH: usize = 43;

/// Greatest parallelism whose eightfold fits in 32 bits. A hash that
/// records more is verified against no password.
pub const MOST_PARALLELISM: u32 = 0x1FFF_FFFF;

/// Hash of a password that no account has.
///
/// It is compared against when an identifier is not registered, so that the
/// same computation runs whether or not the account exists.
pub const PLACEHOLDER_HASH: &'static str =
    "$argon2id$v=19$m=15000,t=2,p=1$gZiV/M1gPc22ElAH/Jh1Hw$CWOrkoo7oJBQ/iyh7uJ0LO2aLEfrHwTWllSAxT0zRno";

#[verifier::external_type_specification]
#[verifier::external_body]
pub struct ExPasswordHashError(argon2::password_hash::Error);

/// The PHC string that Argon2id, version 19, derives from a password and a
/// salt under the given costs; `None` where the derivation is refused.
pub uninterp spec fn argon2id_hash(
    password: Seq<char>,
    salt: Seq<char>,
    memory_cost: u32,
    time_cost: u32,
    parallelism: u32,
) -> Option<Seq<char>>;

/// The digit that stands for a number below ten.
pub open spec fn digit(d: nat) -> char {
    if d == 0 {
        '0'
    } else if d == 1 {
        '1'
    } else if d == 2 {
        '2'
    } else if d == 3 {
        '3'
    } else if d == 4 {
        '4'
    } else if d == 5 {
        '5'
    } else if d == 6 {
        '6'
    } else if d == 7 {
        '7'
    } else if d == 8 {
        '8'
    } else {
        '9'
    }
}

/// A number, written in decimal.
pub open spec fn decimal(n: nat) -> Seq<char>
    decreases n,
{
    if n < 10 {
        seq![digit(n)]
    } else {
        decimal(n / 10).push(digit(n % 10))
    }
}

/// What a PHC string of Argon2id, version 19, holds before its digest: the
/// algorithm, the version, the costs and the salt, each behind a `$`, and
/// the `$` that the digest follows.
pub open spec fn phc_head(
    memory_cost: u32,
    time_cost: u32,
    parallelism: u32,
    salt: Seq<char>,
) -> Seq<char> {
    "$argon2id$v=19$m="@ + decimal(memory_cost as nat) + ",t="@ + decimal(time_cost as nat)
        + ",p="@ + decimal(parallelism as nat) + "$"@ + salt + "$"@
}

/// Whether a text is a PHC string made of the head and a digest.
pub open spec fn phc_string(text: Seq<char>, head: Seq<char>) -> bool {
    &&& text.len() == head.len() + DIGEST_LENGTH
    &&& text.subrange(0, head.len() as int) == head
}

/// Whether `hash` is what hashing the password with the salt under the
/// library's costs gives: the outcome of the derivation, which, where it is
/// a hash, is `PHC_PREFIX`, the salt, a `$` and the digest.
pub open spec fn hashed_with(password: Seq<char>, salt: Seq<char>, hash: Option<Seq<char>>) -> bool {
    &&& hash == argon2id_hash(password, salt, MEMORY_COST, TIME_COST, PARALLELISM)
    &&& hash matches Some(text) ==> phc_string(text, PHC_PREFIX@ + salt + seq!['$'])
}

/// The text of a hash, where there is one.
pub open spec fn hash_text(hash: Option<String>) -> Option<Seq<char>> {
    match hash {
        Some(text) => Some(text@),
        None => None,
    }
}

/// Whether a password verifies against a PHC hash string.
pub uninterp spec fn argon2_verifies(password: Seq<char>, hash: Seq<char>) -> bool;

/// The parameters that a PHC string records, each by its name and its
/// value, in the order in which they stand; `None` for a text that is no PHC
/// string.
pub uninterp spec fn recorded_parameters(hash: Seq<char>) -> Option<Seq<(Seq<char>, Seq<char>)>>;

/// Parameters, each name and value taken by its view.
pub open spec fn parameters_view(parameters: Seq<(String, String)>) -> Seq<(Seq<char>, Seq<char>)> {
    Seq::new(parameters.len(), |i: int| (parameters[i].0@, parameters[i].1@))
}

/// Whether a character is a decimal digit.
pub open spec fn is_digit(c: char) -> bool {
    '0' <= c <= '9'
}

/// The number that a text of digits writes, read from its first digit on.
pub open spec fn number_of(digits: Seq<char>) -> nat
    decreases digits.len(),
{
    if digits.len() == 0 {
        0
    } else {
        (number_of(digits.drop_last()) * 10 + (digits.last() as int - '0' as int)) as nat
    }
}

/// Whether a value is a number greater than `MOST_PARALLELISM`: it is not
/// empty, made of digits, and what they write is greater.
pub open spec fn exceeds_parallelism(value: Seq<char>) -> bool {
    &&& value.len() > 0
    &&& forall|i: int| 0 <= i < value.len() ==> is_digit(#[trigger] value[i])
    &&& number_of(value) > MOST_PARALLELISM
}

/// The value of the last parameter named `p`, which is the one that counts
/// where the name stands more than once; `None` where none is so named.
pub open spec fn last_parallelism(parameters: Seq<(Seq<char>, Seq<char>)>) -> Option<Seq<char>>
    decreases parameters.len(),
{
    if parameters.len() == 0 {
        None
    } else if parameters.last().0 == seq!['p'] {
        Some(parameters.last().1)
    } else {
        last_parallelism(parameters.drop_last())
    }
}

/// Whether the parallelism that the parameters record is greater than
/// `MOST_PARALLELISM`.
pub open spec fn parallelism_exceeds(parameters: Seq<(Seq<char>, Seq<char>)>) -> bool {
    match last_parallelism(parameters) {
        Some(value) => exceeds_parallelism(value),
        None => false,
    }
}

/// The hash that a password is compared against: the stored one, or the
/// placeholder where there is none.
pub open spec fn effective_hash(hash: Option<String>) -> Seq<char> {
    match hash {
        Some(h) => h@,
        None => PLACEHOLDER_HASH@,
    }
}

/// Calls `SaltString::generate` of `password-hash` with the thread's random
/// number generator and hands back the salt's text. Which salt it is, is
/// random. The contract says what holds of every salt that is drawn: it is
/// the encoding of sixteen bytes, so the derivation under the library's
/// costs is refused for no password of up to `LONGEST_PASSWORD` characters,
/// which are at most `0xFFFF_FFFC` bytes; `Argon2::hash_password` refuses a
/// password only over `0xFFFF_FFFF` bytes.
#[verifier::external_body]
pub(crate) fn generate_salt() -> (salt: String)
    ensures
        forall|password: Seq<char>|
            password.len() <= LONGEST_PASSWORD ==> (#[trigger] argon2id_hash(
                password,
                salt@,
                MEMORY_COST,
                TIME_COST,
                PARALLELISM,
            )) is Some,
{
    SaltString::generate(&mut rand::thread_rng()).as_str().to_owned()
}

/// Calls `Argon2::hash_password` of `argon2`, as Argon2id version 19 with
/// the given costs. The contract names the outcome `argon2id_hash`, a
/// function of the arguments alone, and claims that a hash so derived
/// verifies against the password it was derived from: `verify_password`
/// derives again, with the costs and salt that the hash string records, and
/// compares. It claims too that the hash is written as `PasswordHash` is
/// displayed: the algorithm, the version, the costs in decimal as `m`, `t`
/// and `p`, the salt, and a digest of thirty-two bytes in base 64. Left out is a parallelism whose eightfold does not fit in 32
/// bits, which `Params::new` multiplies before it bounds it.
#[verifier::external_body]
fn derive_hash(
    password: &str,
    salt: &str,
    memory_cost: u32,
    time_cost: u32,
    parallelism: u32,
) -> (r: Result<String, argon2::password_hash::Error>)
    requires
        parallelism * 8 <= u32::MAX,
    ensures
        argon2id_hash(password@, salt@, memory_cost, time_cost, parallelism) == (match r {
            Ok(h) => Some(h@),
            Err(_) => None,
        }),
        r matches Ok(h) ==> argon2_verifies(password@, h@),
        r matches Ok(h) ==> phc_string(
            h@,
            phc_head(memory_cost, time_cost, parallelism, salt@),
        ),
{
    let salt = SaltString::from_b64(salt)?;
    let params = Params::new(memory_cost, time_cost, parallelism, None)?;
    let hasher = Argon2::new(Algorithm::Argon2id, Version::V0x13, params);
    Ok(hasher.hash_password(password.as_bytes(), &salt)?.to_string())
}

/// Calls `PasswordHash::new` of `password-hash` on the hash string and
/// hands out the parameters that it holds, as `ParamsString::iter` gives
/// them, each name and value as text. The contract names the outcome
/// `recorded_parameters`, a function of the text alone. It claims too that a
/// hash whose recorded parallelism is greater than `MOST_PARALLELISM`
/// verifies against no password: `Params::new` takes at most `0xFF_FFFF`,
/// and the costs are rebuilt from the last value of each name.
#[verifier::external_body]
fn read_parameters(hash: &str) -> (r: Option<Vec<(String, String)>>)
    ensures
        recorded_parameters(hash@) == (match r {
            Some(parameters) => Some(parameters_view(parameters@)),
            None => None,
        }),
        forall|password: Seq<char>|
            (r matches Some(parameters) && parallelism_exceeds(parameters_view(parameters@)))
                ==> !(#[trigger] argon2_verifies(password, hash@)),
{
    let parsed = PasswordHash::new(hash).ok()?;
    Some(
        parsed.params.iter().map(
            |(name, value)| (name.as_str().to_owned(), value.as_str().to_owned()),
        ).collect(),
    )
}

/// Calls `PasswordHash::new` of `password-hash` on the hash string and
/// `Argon2::verify_password` of `argon2` on the outcome. The contract names
/// the outcome `argon2_verifies`: it is `Ok` exactly when the hash string
/// parses and the password verifies against it. Left out is a hash that
/// records a parallelism whose eightfold does not fit in 32 bits, which
/// `Params::new` multiplies before it bounds it.
#[verifier::external_body]
fn compare(password: &str, hash: &str) -> (r: Result<(), argon2::password_hash::Error>)
    requires
        recorded_parameters(hash@) matches Some(parameters) ==> !parallelism_exceeds(parameters),
    ensures
        r is Ok <==> argon2_verifies(password@, hash@),
{
    let parsed = PasswordHash::new(hash)?;
    Argon2::default().verify_password(password.as_bytes(), &parsed)
}

/// Checks if a value is a number greater than `MOST_PARALLELISM`.
fn value_exceeds(value: &str) -> (r: bool)
    ensures
        r == exceeds_parallelism(value@),
{
    let n = value.unicode_len();
    if n == 0 {
        return false;
    }
    let limit: u64 = 0x2000_0000;
    let mut number: u64 = 0;
    let mut i: usize = 0;
    while i < n
        invariant
            n == value@.len(),
            i <= n,
            limit == MOST_PARALLELISM + 1,
            forall|j: int| 0 <= j < i ==> is_digit(#[trigger] value@[j]),
            number <= limit,
            number == if number_of(value@.subrange(0, i as int)) > limit {
                limit as nat
            } else {
                number_of(value@.subrange(0, i as int))
            },
        decreases n - i,
    {
        let c = value.get_char(i);
        if c < '0' || c > '9' {
            return false;
        }
        proof {
            assert(value@.subrange(0, i + 1).drop_last() =~= value@.subrange(0, i as int));
            assert(value@.subrange(0, i + 1).last() == c);
        }
        let next = number * 10 + (c as u64 - '0' as u64);
        number = if next > limit {
            limit
        } else {
            next
        };
        i += 1;
    }
    proof {
        assert(value@.subrange(0, n as int) =~= value@);
    }
    number > MOST_PARALLELISM as u64
}

/// Checks if the parallelism that the parameters record is greater than
/// `MOST_PARALLELISM`.
fn exceeds(parameters: &Vec<(String, String)>) -> (r: bool)
    ensures
        r == parallelism_exceeds(parameters_view(parameters@)),
{
    let ghost all = parameters_view(parameters@);
    let mut i: usize = parameters.len();
    proof {
        assert(all.subrange(0, i as int) =~= all);
    }
    while i > 0
        invariant
            i <= parameters.len(),
            all == parameters_view(parameters@),
            last_parallelism(all) == last_parallelism(all.subrange(0, i as int)),
        decreases i,
    {
        proof {
            assert(all.subrange(0, i as int).drop_last() =~= all.subrange(0, i - 1));
            assert(all.subrange(0, i as int).last() == all[i - 1]);
        }
        i -= 1;
        let name = parameters[i].0.as_str();
        if name.unicode_len() == 1 && name.get_char(0) == 'p' {
            proof {
                assert(name@ =~= seq!['p']);
            }
            return value_exceeds(parameters[i].1.as_str());
        }
        proof {
            assert(name@ != seq!['p']) by {
                if name@ == seq!['p'] {
                    assert(name@.len() == 1);
                    assert(name@[0] == 'p');
                }
            }
        }
    }
    proof {
        assert(all.subrange(0, 0).len() == 0);
    }
    false
}

/// The head of a hash under the library's costs is `PHC_PREFIX`, the salt
/// and a `$`.
pub proof fn lemma_head_under_library_costs(salt: Seq<char>)
    ensures
        phc_head(MEMORY_COST, TIME_COST, PARALLELISM, salt) == PHC_PREFIX@ + salt + seq!['$'],
{
    reveal_strlit("$argon2id$v=19$m=15000,t=2,p=1$");
    reveal_strlit("$argon2id$v=19$m=");
    reveal_strlit(",t=");
    reveal_strlit(",p=");
    reveal_strlit("$");
    reveal_with_fuel(decimal, 6);
    assert(decimal(15000) =~= seq!['1', '5', '0', '0', '0']);
    assert(decimal(2) =~= seq!['2']);
    assert(decimal(1) =~= seq!['1']);
    assert(phc_head(MEMORY_COST, TIME_COST, PARALLELISM, salt) =~= PHC_PREFIX@ + salt
        + seq!['$']);
}

/// Hashes the password with the given salt, as Argon2id version 19 with
/// `MEMORY_COST`, `TIME_COST` and `PARALLELISM`.
///
/// Returns `None` where the derivation is refused, as for a salt that is not
/// between 4 and 64 characters of `[a-zA-Z0-9/+.-]`. A hash that is
/// returned is `PHC_PREFIX`, the salt, a `$` and the digest.
pub fn hash_with_salt(password: &str, salt: &str) -> (r: Option<String>)
    ensures
        argon2id_hash(password@, salt@, MEMORY_COST, TIME_COST, PARALLELISM) == (match r {
            Some(h) => Some(h@),
            None => None,
        }),
        r matches Some(h) ==> argon2_verifies(password@, h@),
        r matches Some(h) ==> phc_string(h@, PHC_PREFIX@ + salt@ + seq!['$']),
{
    proof {
        lemma_head_under_library_costs(salt@);
    }
    match derive_hash(password, salt, MEMORY_COST, TIME_COST, PARALLELISM) {
        Ok(h) => Some(h),
        Err(_) => None,
    }
}

/// Hashes the password with a fresh random salt.
///
/// Every password of up to `LONGEST_PASSWORD` characters is hashed. The
/// result is what `hash_with_salt` gives for the salt that was drawn: a
/// hash that is returned is `PHC_PREFIX`, that salt, a `$` and the digest,
/// and verifies against the password.
pub fn hash(password: &str) -> (r: Option<String>)
    ensures
        password@.len() <= LONGEST_PASSWORD ==> r is Some,
        exists|salt: Seq<char>| #[trigger] hashed_with(password@, salt, hash_text(r)),
        r matches Some(h) ==> argon2_verifies(password@, h@),
        r matches Some(h) ==> PHC_PREFIX@.is_prefix_of(h@),
{
    let salt = generate_salt();
    let r = hash_with_salt(password, salt.as_str());
    proof {
        assert(hashed_with(password@, salt@, hash_text(r)));
        if r is Some {
            let head = PHC_PREFIX@ + salt@ + seq!['$'];
            assert(head.subrange(0, PHC_PREFIX@.len() as int) =~= PHC_PREFIX@);
            lemma_begins_as_its_head(r->Some_0@, head, PHC_PREFIX@);
        }
    }
    r
}

/// A text that is made of a head and a digest begins with what the head
/// begins with.
pub proof fn lemma_begins_as_its_head(text: Seq<char>, head: Seq<char>, prefix: Seq<char>)
    requires
        phc_string(text, head),
        prefix.is_prefix_of(head),
    ensures
        prefix.is_prefix_of(text),
{
    assert(text.subrange(0, prefix.len() as int) =~= text.subrange(0, head.len() as int).subrange(
        0,
        prefix.len() as int,
    ));
}

/// Checks if the given password matches the hash.
///
/// Where no hash is given, the password is compared against
/// `PLACEHOLDER_HASH`: the hash computation runs whether or not the account
/// exists, as a measure against timing attacks. A hash that records a
/// parallelism greater than `MOST_PARALLELISM` matches no password, and is
/// answered without the computation.
pub fn validate(password: String, hash: Option<String>) -> (r: bool)
    ensures
        r == argon2_verifies(password@, effective_hash(hash)),
{
    let text: &str = match &hash {
        Some(h) => h.as_str(),
        None => PLACEHOLDER_HASH,
    };
    let fits = match read_parameters(text) {
        Some(parameters) => !exceeds(&parameters),
        None => true,
    };
    if !fits {
        return false;
    }
    compare(password.as_str(), text).is_ok()
}

} // verus!
