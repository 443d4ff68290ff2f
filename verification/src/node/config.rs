//! The node's settings and the admin password.
use vstd::prelude::*;

use argon2::password_hash::{PasswordHash, PasswordHasher, PasswordVerifier, SaltString};

use crate::text::{parse_u16, parsed_u16, text_or};
use crate::web::{parse_url, parsed_url};

verus! {

/// `password_hash::SaltString`, carried through as an opaque value.
#[verifier::external_type_specification]
#[verifier::external_body]
pub struct ExSaltString(SaltString);

/// `password_hash::PasswordHash`, carried through as an opaque value.
#[verifier::external_type_specification]
#[verifier::external_body]
pub struct ExPasswordHash<'a>(PasswordHash<'a>);

/// `password_hash::Error`, carried through as an opaque value.
#[verifier::external_type_specification]
#[verifier::external_body]
pub struct ExPasswordHashError(argon2::password_hash::Error);

/// What `PasswordHash::new` makes of a PHC text, if it accepts it.
pub uninterp spec fn phc_parse(text: Seq<char>) -> Option<PasswordHash<'static>>;

/// Whether Argon2 with its default settings accepts a password for a parsed
/// PHC hash.
pub uninterp spec fn argon2_accepts(password: Seq<char>, hash: PasswordHash<'static>) -> bool;

/// The PHC text that Argon2 with its default settings writes for a password
/// and a salt, if it can hash them.
pub uninterp spec fn argon2_phc_text(password: Seq<char>, salt: SaltString) -> Option<Seq<char>>;

/// The bytes that a salt's B64 text encodes, as `SaltString::decode_b64`
/// yields them, if the text decodes.
pub uninterp spec fn salt_bytes(salt: SaltString) -> Option<Seq<u8>>;

/// The largest password, in bytes, that Argon2 hashes (`argon2::MAX_PWD_LEN`).
pub open spec fn max_password_bytes() -> nat {
    0xFFFF_FFFF
}

/// Whether Argon2 can hash `password`: its UTF-8 bytes are no more than it
/// accepts.
pub open spec fn hashable_password(password: Seq<char>) -> bool {
    vstd::utf8::encode_utf8(password).len() <= max_password_bytes()
}

/// Whether `password` matches the PHC hash text `hash`: the text parses, and
/// Argon2 accepts the password for it.
pub open spec fn password_accepted(password: Seq<char>, hash: Seq<char>) -> bool {
    phc_parse(hash) matches Some(h) && argon2_accepts(password, h)
}

/// Calls `PasswordHash::new`; claims that the result is the one named by
/// `phc_parse` for the same text (an error becomes `None`), and that a text
/// that does not start with `$` does not parse (`PasswordHash::parse` wants
/// an empty field before the first `$`).
#[verifier::external_body]
fn parse_password_hash<'a>(text: &'a str) -> (r: Option<PasswordHash<'a>>)
    ensures
        r == phc_parse(text@),
        (text@.len() == 0 || text@[0] != '$') ==> r is None,
{
    PasswordHash::new(text).ok()
}

/// Calls `PasswordVerifier::verify_password` of `Argon2::default()` on the
/// password's bytes and the parsed hash; claims that the outcome is the one
/// named by `argon2_accepts`.
#[verifier::external_body]
fn argon2_verify(password: &str, hash: &PasswordHash) -> (ok: bool)
    ensures
        ok == argon2_accepts(password@, *hash),
{
    argon2::Argon2::default().verify_password(password.as_bytes(), hash).is_ok()
}

/// Calls `SaltString::generate` with the operating system's random source.
/// The salt is random; claims only what holds of every outcome: it encodes
/// `Salt::RECOMMENDED_LENGTH` (16) random bytes, which it decodes back to.
#[verifier::external_body]
fn generate_salt() -> (fresh: SaltString)
    ensures
        salt_bytes(fresh) is Some,
        salt_bytes(fresh)->0.len() == 16,
{
    SaltString::generate(&mut rand_core::OsRng)
}

/// Calls `PasswordHasher::hash_password` of `Argon2::default()` and writes
/// the hash as a PHC text. Claims that the text is the one named by
/// `argon2_phc_text`, and that it reads back as a hash that accepts the same
/// password: verification recomputes the hash with the algorithm, version,
/// parameters and salt that the text records, which are those it was made
/// with. Also claims when it succeeds for a salt that decodes to 8 to 64
/// bytes: `hash_password` decodes the salt into a 64-byte buffer, and with
/// the default parameters the only remaining refusal is a password longer
/// than `MAX_PWD_LEN` bytes (`Argon2::verify_inputs`). For other salts, when
/// it fails is not stated.
#[verifier::external_body]
fn argon2_hash(password: &str, salt: &SaltString) -> (r: Result<String, argon2::password_hash::Error>)
    ensures
        r is Ok <==> argon2_phc_text(password@, *salt) is Some,
        (salt_bytes(*salt) matches Some(b) && 8 <= b.len() <= 64) ==> (r is Ok <==> hashable_password(
            password@,
        )),
        r matches Ok(h) ==> argon2_phc_text(password@, *salt) == Some(h@),
        r matches Ok(h) ==> password_accepted(password@, h@),
{
    argon2::Argon2::default().hash_password(password.as_bytes(), salt).map(|h| h.to_string())
}

/// Hashing a password failed.
#[derive(Debug)]
pub struct HashError;

/// Hashes a password with Argon2 and a fresh random salt, as a PHC text.
/// It fails only for a password longer than Argon2 accepts.
pub fn hash_password(password: &str) -> (r: Result<String, HashError>)
    ensures
        r is Ok <==> hashable_password(password@),
        r matches Ok(h) ==> password_accepted(password@, h@),
{
    let salt = generate_salt();
    match argon2_hash(password, &salt) {
        Ok(h) => Ok(h),
        Err(_) => Err(HashError),
    }
}

/// Whether `password` matches the PHC hash text `hash`; a text that does not
/// parse matches nothing.
pub fn verify_password(password: &str, hash: &str) -> (ok: bool)
    ensures
        ok == password_accepted(password@, hash@),
        (hash@.len() == 0 || hash@[0] != '$') ==> !ok,
{
    match parse_password_hash(hash) {
        Some(parsed) => argon2_verify(password, &parsed),
        None => false,
    }
}

/// The node's settings.
#[derive(Debug, Clone)]
pub struct Config {
    pub host: String,
    pub port: u16,
    pub database_url: String,
    pub public_url: String,
    /// The admin password, hashed with Argon2 as a PHC text
    pub admin_password_hash: String,
}

/// The raw settings read from the environment; `None` where a variable is
/// unset.
#[derive(Debug, Clone)]
pub struct Settings {
    pub admin_password: Option<String>,
    pub host: Option<String>,
    pub port: Option<String>,
    pub database_url: Option<String>,
    pub public_url: Option<String>,
    /// The database to use when `database_url` is unset.
    pub default_database_url: String,
}

/// Why the settings do not make a configuration.
#[derive(Debug)]
pub enum ConfigError {
    /// The admin password could not be hashed.
    PasswordHash,
    /// The port is no 16-bit number; holds the text.
    InvalidPort(String),
}

/// The admin password in effect.
pub open spec fn admin_password_of(s: Settings) -> Seq<char> {
    text_or(s.admin_password, "admin"@)
}

/// The port text in effect.
pub open spec fn port_text_of(s: Settings) -> Seq<char> {
    text_or(s.port, "3000"@)
}

/// Whether `c` is the configuration that `s` describes.
pub open spec fn configured_by(c: Config, s: Settings) -> bool {
    &&& c.host@ == text_or(s.host, "127.0.0.1"@)
    &&& parsed_u16(port_text_of(s)) == Some(c.port)
    &&& c.database_url@ == text_or(s.database_url, s.default_database_url@)
    &&& c.public_url@ == text_or(s.public_url, "http://localhost:3000"@)
    &&& password_accepted(admin_password_of(s), c.admin_password_hash@)
}

impl Config {
    /// The configuration that the settings describe, with the admin password
    /// hashed. The password is hashed first; a port that is no 16-bit number
    /// is refused.
    pub fn from_settings(settings: Settings) -> (r: Result<Config, ConfigError>)
        ensures
            r matches Ok(c) ==> configured_by(c, settings),
            r matches Err(ConfigError::InvalidPort(t)) ==> t@ == port_text_of(settings)
                && parsed_u16(port_text_of(settings)) is None,
            parsed_u16(port_text_of(settings)) is None ==> r is Err,
            r is Ok <==> (hashable_password(admin_password_of(settings)) && parsed_u16(
                port_text_of(settings),
            ) is Some),
            r matches Err(ConfigError::PasswordHash) <==> !hashable_password(admin_password_of(settings)),
    {
        let raw_password = match settings.admin_password {
            Some(p) => p,
            None => "admin".to_owned(),
        };
        let admin_password_hash = match hash_password(raw_password.as_str()) {
            Ok(h) => h,
            Err(_) => return Err(ConfigError::PasswordHash),
        };
        let host = match settings.host {
            Some(h) => h,
            None => "127.0.0.1".to_owned(),
        };
        let port_text = match settings.port {
            Some(p) => p,
            None => "3000".to_owned(),
        };
        let port = match parse_u16(port_text.as_str()) {
            Some(p) => p,
            None => return Err(ConfigError::InvalidPort(port_text)),
        };
        let database_url = match settings.database_url {
            Some(d) => d,
            None => settings.default_database_url,
        };
        let public_url = match settings.public_url {
            Some(u) => u,
            None => "http://localhost:3000".to_owned(),
        };
        Ok(Config { host, port, database_url, public_url, admin_password_hash })
    }

    /// The public URL parsed, the base of every URL the node serves.
    pub fn public_base_url(&self) -> (r: Option<url::Url>)
        ensures
            r == parsed_url(self.public_url@),
    {
        parse_url(self.public_url.as_str())
    }
}

} // verus!
