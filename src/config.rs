//! Credentials: the host, the user and the secret, resolved once from a
//! configuration file.
use vstd::prelude::*;
use vstd::utf8::{decode_utf8, valid_utf8};

use crate::error::KimaiError;

verus! {

/// The fields of a configuration file. Exactly one of `password` and
/// `pass_path` is meant to be given.
pub struct ConfigFile {
    pub host: String,
    pub user: String,
    pub password: Option<String>,
    pub pass_path: Option<String>,
}

/// The resolved credentials of one invocation.
pub struct Config {
    /// Base URL of the service, without a trailing slash.
    pub host: String,
    pub user: String,
    /// The secret sent as the auth token.
    pub password: String,
}

/// Where the secret comes from.
pub enum SecretSource {
    /// Given verbatim in the file.
    Password(String),
    /// An entry of the external secret store, to be looked up.
    PassPath(String),
}

impl Config {
    pub fn new(host: String, user: String, password: String) -> (r: Config)
        ensures
            r.host == host,
            r.user == user,
            r.password == password,
    {
        Config { host, user, password }
    }
}

/// The message of a file that gives no secret.
pub open spec fn no_password_message() -> Seq<char> {
    "No password given in config!"@
}

impl ConfigFile {
    /// The source of the secret: `password` where it is given, else the
    /// secret-store entry `pass_path`; a configuration error where neither is.
    pub fn secret_source(&self) -> (r: Result<SecretSource, KimaiError>)
        ensures
            self.password matches Some(p) ==> r matches Ok(SecretSource::Password(q)) && q == p,
            self.password is None ==> (self.pass_path matches Some(p) ==> r matches Ok(
                SecretSource::PassPath(q),
            ) && q == p),
            self.password is None && self.pass_path is None ==> (r matches Err(
                KimaiError::Config(m),
            ) && m@ == no_password_message()),
    {
        match &self.password {
            Some(p) => Ok(SecretSource::Password(p.clone())),
            None => match &self.pass_path {
                Some(p) => Ok(SecretSource::PassPath(p.clone())),
                None => Err(KimaiError::Config("No password given in config!".to_string())),
            },
        }
    }
}

/// Unicode's `White_Space` property.
pub open spec fn is_white_space(c: char) -> bool {
    ('\u{9}' <= c && c <= '\u{d}') || c == ' ' || c == '\u{85}' || c == '\u{a0}' || c
        == '\u{1680}' || ('\u{2000}' <= c && c <= '\u{200a}') || c == '\u{2028}' || c
        == '\u{2029}' || c == '\u{202f}' || c == '\u{205f}' || c == '\u{3000}'
}

pub open spec fn trim_start(s: Seq<char>) -> Seq<char>
    decreases s.len(),
{
    if s.len() > 0 && is_white_space(s[0]) {
        trim_start(s.drop_first())
    } else {
        s
    }
}

pub open spec fn trim_end(s: Seq<char>) -> Seq<char>
    decreases s.len(),
{
    if s.len() > 0 && is_white_space(s.last()) {
        trim_end(s.drop_last())
    } else {
        s
    }
}

/// The text without its leading and trailing white space.
pub open spec fn trimmed(s: Seq<char>) -> Seq<char> {
    trim_end(trim_start(s))
}

/// Relies on `std::str::from_utf8`: the text that the bytes encode where
/// they are valid UTF-8, else the error's message.
#[verifier::external_body]
fn utf8_text(b: &[u8]) -> (r: Result<String, String>)
    ensures
        r is Ok <==> valid_utf8(b@),
        r matches Ok(s) ==> s@ == decode_utf8(b@),
{
    match std::str::from_utf8(b) {
        Ok(s) => Ok(s.to_string()),
        Err(e) => Err(e.to_string()),
    }
}

/// Relies on `str::trim`: removes leading and trailing white space.
#[verifier::external_body]
fn trim_text(s: &str) -> (r: String)
    ensures
        r@ == trimmed(s@),
{
    s.trim().to_string()
}

/// The message of a secret lookup that did not succeed.
pub open spec fn lookup_failed_message() -> Seq<char> {
    "the secret lookup command failed"@
}

/// The secret from a run of the secret-lookup command: its standard output,
/// which must be UTF-8, without surrounding white space. A run that failed
/// is an I/O error; output that is not UTF-8 an encoding error.
pub fn secret_from_output(success: bool, stdout: &Vec<u8>) -> (r: Result<String, KimaiError>)
    ensures
        !success ==> (r matches Err(KimaiError::IO(m)) && m@ == lookup_failed_message()),
        success && !valid_utf8(stdout@) ==> r matches Err(KimaiError::Utf8(_)),
        success && valid_utf8(stdout@) ==> (r matches Ok(s) && s@ == trimmed(
            decode_utf8(stdout@),
        )),
{
    if !success {
        return Err(KimaiError::IO("the secret lookup command failed".to_string()));
    }
    match utf8_text(stdout.as_slice()) {
        Ok(text) => Ok(trim_text(text.as_str())),
        Err(e) => Err(KimaiError::Utf8(e)),
    }
}

} // verus!
