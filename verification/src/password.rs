//! Password hashing with Argon2 and verification of stored Argon2 or bcrypt hashes.

use vstd::prelude::*;
use vstd::utf8::encode_utf8;

verus! {

#[verifier::external_type_specification]
#[verifier::external_body]
pub struct ExArgon2Error(argon2::Error);

#[verifier::external_type_specification]
#[verifier::external_body]
pub struct ExBcryptError(bcrypt::BcryptError);

#[verifier::external_type_specification]
#[verifier::external_body]
pub struct ExArgon2Config<'a>(argon2::Config<'a>);

#[verifier::external_type_specification]
#[verifier::external_body]
pub struct ExArgon2Variant(argon2::Variant);

#[verifier::external_type_specification]
#[verifier::external_body]
pub struct ExArgon2Version(argon2::Version);

#[verifier::external_type_specification]
#[verifier::external_body]
pub struct ExArgon2ThreadMode(argon2::ThreadMode);

#[derive(Debug, PartialEq, Eq)]
/// The algorithm that produced a stored password hash.
pub enum HashType {
    Bcrypt,
    Argon2,
}

#[derive(Debug)]
/// Why a stored hash could not be checked against a password.
pub enum ValidateError {
    BCryptError(bcrypt::BcryptError),
    Argon2Error(argon2::Error),
}

/// The Argon2 variants.
#[derive(Debug, PartialEq, Eq, Structural, Clone, Copy)]
pub enum Argon2Variant {
    Argon2d,
    Argon2i,
    Argon2id,
}

/// The Argon2 versions.
#[derive(Debug, PartialEq, Eq, Structural, Clone, Copy)]
pub enum Argon2Version {
    Version10,
    Version13,
}

/// Whether the lanes are computed one after the other or in parallel.
#[derive(Debug, PartialEq, Eq, Structural, Clone, Copy)]
pub enum Argon2ThreadMode {
    Sequential,
    Parallel,
}

#[derive(Debug, PartialEq)]
/// The parameters of an Argon2 hash.
pub struct Argon2Params {
    pub ad: Vec<u8>,
    pub hash_length: u32,
    pub lanes: u32,
    pub mem_cost: u32,
    pub secret: Vec<u8>,
    pub thread_mode: Argon2ThreadMode,
    pub time_cost: u32,
    pub variant: Argon2Variant,
    pub version: Argon2Version,
}

/// The mathematical content of [`Argon2Params`].
pub struct Argon2ParamsView {
    pub ad: Seq<u8>,
    pub hash_length: u32,
    pub lanes: u32,
    pub mem_cost: u32,
    pub secret: Seq<u8>,
    pub thread_mode: Argon2ThreadMode,
    pub time_cost: u32,
    pub variant: Argon2Variant,
    pub version: Argon2Version,
}

impl View for Argon2Params {
    type V = Argon2ParamsView;

    open spec fn view(&self) -> Argon2ParamsView {
        Argon2ParamsView {
            ad: self.ad@,
            hash_length: self.hash_length,
            lanes: self.lanes,
            mem_cost: self.mem_cost,
            secret: self.secret@,
            thread_mode: self.thread_mode,
            time_cost: self.time_cost,
            variant: self.variant,
            version: self.version,
        }
    }
}

/// The largest memory cost (in KiB) that Argon2 accepts on this platform.
pub open spec fn argon2_max_memory() -> int {
    if usize::BITS == 32 { 0x200000 } else { 0xFFFF_FFFF }
}

/// When Argon2 accepts its parameters together with a password and a salt of the given lengths.
pub open spec fn argon2_accepts(p: Argon2ParamsView, pwd_len: nat, salt_len: nat) -> bool {
    &&& 1 <= p.lanes <= 0x00FF_FFFF
    &&& 8 <= p.mem_cost <= argon2_max_memory()
    &&& 8 * p.lanes <= p.mem_cost
    &&& 1 <= p.time_cost
    &&& pwd_len <= 0xFFFF_FFFF
    &&& 8 <= salt_len <= 0xFFFF_FFFF
    &&& p.secret.len() <= 0xFFFF_FFFF
    &&& p.ad.len() <= 0xFFFF_FFFF
    &&& 4 <= p.hash_length
}

/// The encoded Argon2 hash of a password with a salt under the given parameters.
pub uninterp spec fn argon2_encoded(pwd: Seq<u8>, salt: Seq<u8>, params: Argon2ParamsView) -> Seq<char>;

/// What checking a password against an encoded Argon2 hash gives: `None` when the hash
/// cannot be decoded or its parameters are refused, else whether the password matches.
pub uninterp spec fn argon2_verify_outcome(encoded: Seq<char>, pwd: Seq<u8>) -> Option<bool>;

/// What checking a password against a bcrypt hash gives: `None` when the hash is malformed,
/// else whether the password matches.
pub uninterp spec fn bcrypt_verify_outcome(pwd: Seq<u8>, hash: Seq<char>) -> Option<bool>;

/// The parameters this library hashes passwords with: Argon2id, version 1.3, one lane,
/// 37 MiB of memory, one pass and a 32-byte output, without secret or associated data.
pub fn argon2_params() -> (p: Argon2Params)
    ensures
        p@ == argon2_params_spec(),
{
    let p = Argon2Params {
        ad: Vec::new(),
        hash_length: 32,
        lanes: 1,
        mem_cost: 37 * 1024,
        secret: Vec::new(),
        thread_mode: Argon2ThreadMode::Sequential,
        time_cost: 1,
        variant: Argon2Variant::Argon2id,
        version: Argon2Version::Version13,
    };
    assert(p@.ad =~= Seq::empty());
    assert(p@.secret =~= Seq::empty());
    p
}

/// Converts a variant into `argon2::Variant`, one for one.
#[verifier::external_body]
fn argon2_variant(v: Argon2Variant) -> argon2::Variant {
    match v {
        Argon2Variant::Argon2d => argon2::Variant::Argon2d,
        Argon2Variant::Argon2i => argon2::Variant::Argon2i,
        Argon2Variant::Argon2id => argon2::Variant::Argon2id,
    }
}

/// Converts a version into `argon2::Version`, one for one.
#[verifier::external_body]
fn argon2_version(v: Argon2Version) -> argon2::Version {
    match v {
        Argon2Version::Version10 => argon2::Version::Version10,
        Argon2Version::Version13 => argon2::Version::Version13,
    }
}

/// Converts a thread mode into `argon2::ThreadMode`, one for one.
#[verifier::external_body]
fn argon2_thread_mode(m: Argon2ThreadMode) -> argon2::ThreadMode {
    match m {
        Argon2ThreadMode::Sequential => argon2::ThreadMode::Sequential,
        Argon2ThreadMode::Parallel => argon2::ThreadMode::Parallel,
    }
}

/// Builds the `argon2::Config` that holds the given parameters; it converts, field by field.
#[verifier::external_body]
fn argon2_config(p: &Argon2Params) -> argon2::Config<'_> {
    argon2::Config {
        ad: &p.ad,
        hash_length: p.hash_length,
        lanes: p.lanes,
        mem_cost: p.mem_cost,
        secret: &p.secret,
        thread_mode: argon2_thread_mode(p.thread_mode),
        time_cost: p.time_cost,
        variant: argon2_variant(p.variant),
        version: argon2_version(p.version),
    }
}

/// Calls `argon2::hash_encoded`. Claimed: it succeeds exactly when its parameter checks
/// pass (`argon2_accepts`, as in the crate's `Context::new`); the hash it returns is a
/// function of password, salt and parameters; and, without secret or associated data,
/// `argon2::verify_encoded` accepts that hash for the same password.
#[verifier::external_body]
fn argon2_hash_encoded(pwd: &[u8], salt: &[u8], params: &Argon2Params) -> (res: Result<String, argon2::Error>)
    ensures
        res is Ok <==> argon2_accepts(params@, pwd@.len(), salt@.len()),
        res matches Ok(h) ==> h@ == argon2_encoded(pwd@, salt@, params@),
        res matches Ok(h) ==> (params@.ad.len() == 0 && params@.secret.len() == 0
            ==> argon2_verify_outcome(h@, pwd@) == Some(true)),
{
    argon2::hash_encoded(pwd, salt, &argon2_config(params))
}

/// Calls `argon2::verify_encoded`. Claimed: the outcome is a function of the encoded hash
/// and the password, and a hash without any `$` separator is refused.
#[verifier::external_body]
fn argon2_verify_encoded(encoded: &str, pwd: &[u8]) -> (res: Result<bool, argon2::Error>)
    ensures
        res is Ok <==> argon2_verify_outcome(encoded@, pwd@) is Some,
        res matches Ok(b) ==> argon2_verify_outcome(encoded@, pwd@) == Some(b),
        !encoded@.contains('$') ==> res is Err,
{
    argon2::verify_encoded(encoded, pwd)
}

/// Calls `bcrypt::verify`. Claimed: the outcome is a function of the password and the hash,
/// and a hash without any `$` separator is refused.
#[verifier::external_body]
fn bcrypt_verify(pwd: &[u8], hash: &str) -> (res: Result<bool, bcrypt::BcryptError>)
    ensures
        res is Ok <==> bcrypt_verify_outcome(pwd@, hash@) is Some,
        res matches Ok(b) ==> bcrypt_verify_outcome(pwd@, hash@) == Some(b),
        !hash@.contains('$') ==> res is Err,
{
    bcrypt::verify(pwd, hash)
}

/// Fills `len` bytes from the thread-local random number generator of `rand`.
/// Claimed: only the length; the bytes are random.
#[verifier::external_body]
fn random_bytes(len: usize) -> (res: Vec<u8>)
    ensures
        res@.len() == len,
{
    let mut v = vec![0u8; len];
    rand::Rng::fill(&mut rand::thread_rng(), &mut v[..]);
    v
}

/// A text of `n` characters takes at most `4 n` bytes in UTF-8.
pub proof fn lemma_encode_utf8_len_bound(s: Seq<char>)
    ensures
        encode_utf8(s).len() <= 4 * s.len(),
    decreases s.len(),
{
    if s.len() > 0 {
        lemma_encode_utf8_len_bound(s.drop_first());
        assert(vstd::utf8::encode_scalar(s[0] as u32).len() <= 4);
    }
}

/// The number of salt bytes drawn for each new hash.
pub const SALT_LENGTH: usize = 16;

/// Hashes a password with Argon2id under [`argon2_params`] and a fresh random salt.
/// It fails only for a password of more than `u32::MAX` bytes, and a hash it returns is
/// accepted by [`validate`] for the same password.
pub fn encrypt(password: &str) -> (res: Result<String, argon2::Error>)
    ensures
        res is Ok <==> encode_utf8(password@).len() <= 0xFFFF_FFFF,
        res matches Ok(h) ==> exists|salt: Seq<u8>|
            salt.len() == SALT_LENGTH && #[trigger] argon2_encoded(encode_utf8(password@), salt, argon2_params_spec()) == h@,
        res matches Ok(h) ==> validate_outcome(HashType::Argon2, h@, encode_utf8(password@)) == Some(true),
{
    let salt = random_bytes(SALT_LENGTH);
    let params = argon2_params();
    let res = argon2_hash_encoded(password.as_bytes(), salt.as_slice(), &params);
    res
}

/// The view of [`argon2_params`].
pub open spec fn argon2_params_spec() -> Argon2ParamsView {
    Argon2ParamsView {
        ad: Seq::empty(),
        hash_length: 32,
        lanes: 1,
        mem_cost: 37888,
        secret: Seq::empty(),
        thread_mode: Argon2ThreadMode::Sequential,
        time_cost: 1,
        variant: Argon2Variant::Argon2id,
        version: Argon2Version::Version13,
    }
}

/// What [`validate`] gives for a hash type, a stored hash and a password:
/// `None` for an error of the hashing crate, else whether the password matches.
pub open spec fn validate_outcome(hash_type: HashType, hash: Seq<char>, password: Seq<u8>) -> Option<bool> {
    match hash_type {
        HashType::Bcrypt => bcrypt_verify_outcome(password, hash),
        HashType::Argon2 => argon2_verify_outcome(hash, password),
    }
}

/// The answer for a stored hash is the hashing crate's own verdict on the password's
/// UTF-8 bytes, whatever the hash looks like: bcrypt's for a bcrypt hash (of any version
/// prefix), Argon2's for an Argon2 hash.
pub proof fn lemma_validate_outcome_is_crate_verdict(hash: Seq<char>, password: Seq<u8>)
    ensures
        validate_outcome(HashType::Bcrypt, hash, password) == bcrypt_verify_outcome(password, hash),
        validate_outcome(HashType::Argon2, hash, password) == argon2_verify_outcome(hash, password),
{
}

/// Checks a password against a stored hash of the given type.
pub fn validate(hash_type: HashType, hash: &String, password: &String) -> (res: Result<bool, ValidateError>)
    ensures
        res is Ok <==> validate_outcome(hash_type, hash@, encode_utf8(password@)) is Some,
        res matches Ok(b) ==> validate_outcome(hash_type, hash@, encode_utf8(password@)) == Some(b),
        res matches Err(e) ==> (e is BCryptError <==> hash_type is Bcrypt),
        hash_type is Bcrypt ==> (res is Ok <==> bcrypt_verify_outcome(encode_utf8(password@), hash@) is Some),
        hash_type is Bcrypt ==> (res matches Ok(b) ==> bcrypt_verify_outcome(encode_utf8(password@), hash@) == Some(b)),
        hash_type is Argon2 ==> (res is Ok <==> argon2_verify_outcome(hash@, encode_utf8(password@)) is Some),
        hash_type is Argon2 ==> (res matches Ok(b) ==> argon2_verify_outcome(hash@, encode_utf8(password@)) == Some(b)),
{
    match hash_type {
        HashType::Bcrypt => match bcrypt_verify(password.as_str().as_bytes(), hash.as_str()) {
            Ok(b) => Ok(b),
            Err(e) => Err(ValidateError::BCryptError(e)),
        },
        HashType::Argon2 => match argon2_verify_encoded(hash.as_str(), password.as_str().as_bytes()) {
            Ok(b) => Ok(b),
            Err(e) => Err(ValidateError::Argon2Error(e)),
        },
    }
}

} // verus!
