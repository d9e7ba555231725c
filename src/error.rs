//! The one error type of the library: one variant per kind of failure, each
//! carrying a message.
use vstd::prelude::*;

verus! {

#[derive(Debug)]
pub enum KimaiError {
    /// The per-user configuration directory could not be resolved.
    XdgBaseDirectories(String),
    /// A file or an external process failed.
    IO(String),
    /// The configuration file is not well-formed.
    Toml(String),
    /// Text that had to be UTF-8 was not.
    Utf8(String),
    /// The HTTP exchange failed on the network.
    Reqwest(String),
    /// A success response's body did not have the expected shape.
    Decode(String),
    /// A date or time string matched neither accepted format.
    ChronoParse(String),
    /// The configuration is incomplete or unusable.
    Config(String),
    /// The server answered with a non-success status; carries its body.
    Api(String),
    Other(String),
}

impl KimaiError {
    /// The label that opens the message of each kind.
    pub open spec fn label(&self) -> Seq<char> {
        match self {
            KimaiError::XdgBaseDirectories(_) => "XDG BaseDirectories Error: "@,
            KimaiError::IO(_) => "IO Error: "@,
            KimaiError::Toml(_) => "TOML Error: "@,
            KimaiError::Utf8(_) => "UTF-8 Error: "@,
            KimaiError::Reqwest(_) => "Reqwest Error: "@,
            KimaiError::Decode(_) => "Decode Error: "@,
            KimaiError::ChronoParse(_) => "Chrono Parser Error: "@,
            KimaiError::Config(_) => "Config Error: "@,
            KimaiError::Api(_) => "API Error: "@,
            KimaiError::Other(_) => "Error: "@,
        }
    }

    /// The text that the error carries.
    pub open spec fn detail(&self) -> Seq<char> {
        match self {
            KimaiError::XdgBaseDirectories(e) => e@,
            KimaiError::IO(e) => e@,
            KimaiError::Toml(e) => e@,
            KimaiError::Utf8(e) => e@,
            KimaiError::Reqwest(e) => e@,
            KimaiError::Decode(e) => e@,
            KimaiError::ChronoParse(e) => e@,
            KimaiError::Config(e) => e@,
            KimaiError::Api(e) => e@,
            KimaiError::Other(e) => e@,
        }
    }

    /// The message shown to a user: the kind's label, then the detail.
    pub fn message(&self) -> (r: String)
        ensures
            r@ == self.label() + self.detail(),
    {
        let (label, detail) = match self {
            KimaiError::XdgBaseDirectories(e) => ("XDG BaseDirectories Error: ", e),
            KimaiError::IO(e) => ("IO Error: ", e),
            KimaiError::Toml(e) => ("TOML Error: ", e),
            KimaiError::Utf8(e) => ("UTF-8 Error: ", e),
            KimaiError::Reqwest(e) => ("Reqwest Error: ", e),
            KimaiError::Decode(e) => ("Decode Error: ", e),
            KimaiError::ChronoParse(e) => ("Chrono Parser Error: ", e),
            KimaiError::Config(e) => ("Config Error: ", e),
            KimaiError::Api(e) => ("API Error: ", e),
            KimaiError::Other(e) => ("Error: ", e),
        };
        let mut r = label.to_string();
        r.append(detail.as_str());
        r
    }
}

} // verus!
