//! The typed errors of the library.
//!
//! A source fails with a [`SourceError`]; parsing a language, a player or a
//! stage name each has its own error. Every error carries its message as
//! plain text.

use vstd::prelude::*;

verus! {

/// What a source operation can fail with.
#[derive(Debug)]
pub enum SourceError {
    /// The remote API failed, or returned an empty result.
    ApiError(String),
    /// The API response could not be decoded.
    ParseError(String),
    /// A user-supplied token did not resolve to anything.
    UnknownVariant(String),
}

impl SourceError {
    /// The message carried by the error.
    pub fn message(&self) -> (r: String)
        ensures
            r@ == self.text(),
    {
        match self {
            SourceError::ApiError(m) => m.clone(),
            SourceError::ParseError(m) => m.clone(),
            SourceError::UnknownVariant(m) => m.clone(),
        }
    }

    /// The message carried by the error.
    pub open spec fn text(&self) -> Seq<char> {
        match self {
            SourceError::ApiError(m) => m@,
            SourceError::ParseError(m) => m@,
            SourceError::UnknownVariant(m) => m@,
        }
    }
}

/// Failure to read a language from a token.
#[derive(Debug)]
pub enum LanguageError {
    UnknownLanguage(String),
}

impl LanguageError {
    /// The message carried by the error.
    pub fn message(&self) -> (r: String)
        ensures
            r@ == self.text(),
    {
        match self {
            LanguageError::UnknownLanguage(m) => m.clone(),
        }
    }

    /// The message carried by the error.
    pub open spec fn text(&self) -> Seq<char> {
        match self {
            LanguageError::UnknownLanguage(m) => m@,
        }
    }
}

/// Failure to read a player from a token.
#[derive(Debug)]
pub enum PlayerError {
    UnknownPlayer(String),
}

impl PlayerError {
    /// The message carried by the error.
    pub fn message(&self) -> (r: String)
        ensures
            r@ == self.text(),
    {
        match self {
            PlayerError::UnknownPlayer(m) => m.clone(),
        }
    }

    /// The message carried by the error.
    pub open spec fn text(&self) -> Seq<char> {
        match self {
            PlayerError::UnknownPlayer(m) => m@,
        }
    }
}

/// Failure to read a stage name from a token.
#[derive(Debug)]
pub enum StateError {
    UnknownState(String),
}

impl StateError {
    /// The message carried by the error.
    pub fn message(&self) -> (r: String)
        ensures
            r@ == self.text(),
    {
        match self {
            StateError::UnknownState(m) => m.clone(),
        }
    }

    /// The message carried by the error.
    pub open spec fn text(&self) -> Seq<char> {
        match self {
            StateError::UnknownState(m) => m@,
        }
    }
}

} // verus!
