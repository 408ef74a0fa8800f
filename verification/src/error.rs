//! What can go wrong.

use vstd::prelude::*;

verus! {

/// A configuration that cannot be turned into a signing context.
#[derive(Debug, Copy, Clone, PartialEq, Eq, Structural)]
pub enum ConfigurationError {
    /// The private key is not a valid key in wallet import format, or the
    /// key bytes at hand are no key.
    MalformedKey,
    /// The funding transaction id is not 64 hexadecimal digits.
    MalformedTxid,
    /// The network selector names no known network.
    UnknownNetwork,
}

/// Why no signing context could be assembled.
#[derive(Debug, Copy, Clone, PartialEq, Eq, Structural)]
pub enum AssemblyError {
    Configuration(ConfigurationError),
    /// The system clock reads a time before 1970.
    Clock,
}

/// Why a candidate could not be signed.
#[derive(Debug, Copy, Clone, PartialEq, Eq, Structural)]
pub enum SigningError {
    /// No signature digest can be computed for the transaction.
    Digest,
    /// The secret key is no key.
    Key,
}

impl ConfigurationError {
    /// What went wrong, in words.
    pub open spec fn text(self) -> Seq<char> {
        match self {
            ConfigurationError::MalformedKey => "the funding key is not a valid private key"@,
            ConfigurationError::MalformedTxid => "the funding transaction id is not 64 hexadecimal digits"@,
            ConfigurationError::UnknownNetwork => "the network selector names no known network"@,
        }
    }

    pub fn message(&self) -> (message: &'static str)
        ensures
            message@ == self.text(),
    {
        match self {
            ConfigurationError::MalformedKey => "the funding key is not a valid private key",
            ConfigurationError::MalformedTxid => "the funding transaction id is not 64 hexadecimal digits",
            ConfigurationError::UnknownNetwork => "the network selector names no known network",
        }
    }
}

impl AssemblyError {
    /// What went wrong, in words.
    pub open spec fn text(self) -> Seq<char> {
        match self {
            AssemblyError::Configuration(error) => error.text(),
            AssemblyError::Clock => "the system clock reads a time before 1970"@,
        }
    }

    pub fn message(&self) -> (message: &'static str)
        ensures
            message@ == self.text(),
    {
        match self {
            AssemblyError::Configuration(error) => error.message(),
            AssemblyError::Clock => "the system clock reads a time before 1970",
        }
    }
}

impl SigningError {
    /// What went wrong, in words.
    pub open spec fn text(self) -> Seq<char> {
        match self {
            SigningError::Digest => "no signature digest can be computed for the transaction"@,
            SigningError::Key => "the secret key is no key"@,
        }
    }

    pub fn message(&self) -> (message: &'static str)
        ensures
            message@ == self.text(),
    {
        match self {
            SigningError::Digest => "no signature digest can be computed for the transaction",
            SigningError::Key => "the secret key is no key",
        }
    }
}

} // verus!
