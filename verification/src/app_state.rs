//! The conversion target: what the caller asked for.
//!
//! An [`AppState`] captures the requested behavior and output shape.
//! Fields left unset are filled once from the discovered key by
//! [`AppState::resolve_defaults`]; nothing else mutates the request.
use vstd::prelude::*;

use crate::errors::Error;
use crate::key_info::{Alg, Encoding, Format, KeyInfo, KeyType};

verus! {

/// The behavior the caller asked for.
#[derive(Clone, Copy, Debug, PartialEq, Eq, Structural)]
pub enum Command {
    /// Display info about the provided key; no conversion.
    Show,
    /// Convert the provided key, based on the input parameters.
    Convert,
}

/// The view of an optional owned string.
pub open spec fn opt_string_view(o: Option<String>) -> Option<Seq<char>> {
    match o {
        Some(s) => Some(s@),
        None => None,
    }
}

/// The mathematical view of an [`AppState`].
#[verifier::ext_equal]
pub ghost struct AppStateView {
    pub in_file: Option<Seq<char>>,
    pub out_file: Option<Seq<char>>,
    pub in_password: Option<Seq<char>>,
    pub out_password: Option<Seq<char>>,
    pub key_id: Option<Seq<char>>,
    pub alg: Option<Alg>,
    pub key_type: Option<KeyType>,
    pub encoding: Encoding,
    pub format: Option<Format>,
    pub encrypted: bool,
    pub command: Command,
}

/// The requested conversion target, initially established from the
/// caller's input parameters.
pub struct AppState {
    /// Name of the file to read from, when one was named.
    pub in_file: Option<String>,
    /// Name of the file to write to, when one was named.
    pub out_file: Option<String>,
    /// Password, if the input is encrypted.
    pub in_password: Option<String>,
    /// Password, if the output should be encrypted.
    pub out_password: Option<String>,
    /// Key identifier carried through for JWT output.
    pub key_id: Option<String>,
    /// The requested output algorithm; only meaningful within one
    /// family, such as between RSA and RSASSA-PSS.
    pub alg: Option<Alg>,
    /// The requested output key type.
    pub key_type: Option<KeyType>,
    /// The requested output encoding.
    pub encoding: Encoding,
    /// The requested output format.
    pub format: Option<Format>,
    /// Whether the output should be encrypted; set when an output
    /// password was provided.
    pub encrypted: bool,
    /// The behavior to perform.
    pub command: Command,
}

impl View for AppState {
    type V = AppStateView;

    open spec fn view(&self) -> AppStateView {
        AppStateView {
            in_file: opt_string_view(self.in_file),
            out_file: opt_string_view(self.out_file),
            in_password: opt_string_view(self.in_password),
            out_password: opt_string_view(self.out_password),
            key_id: opt_string_view(self.key_id),
            alg: self.alg,
            key_type: self.key_type,
            encoding: self.encoding,
            format: self.format,
            encrypted: self.encrypted,
            command: self.command,
        }
    }
}

/// The view of a fresh [`AppState`]: nothing requested yet, PEM output,
/// conversion behavior.
pub open spec fn spec_app_state_new() -> AppStateView {
    AppStateView {
        in_file: None,
        out_file: None,
        in_password: None,
        out_password: None,
        key_id: None,
        alg: None,
        key_type: None,
        encoding: Encoding::PEM,
        format: None,
        encrypted: false,
        command: Command::Convert,
    }
}

impl AppState {
    /// A fresh request: no fields set, PEM output, conversion behavior.
    pub fn new() -> (r: Self)
        ensures
            r@ =~= spec_app_state_new(),
    {
        Self {
            in_file: None,
            out_file: None,
            in_password: None,
            out_password: None,
            key_id: None,
            alg: None,
            key_type: None,
            encoding: Encoding::PEM,
            format: None,
            encrypted: false,
            command: Command::Convert,
        }
    }

    /// The requested algorithm, or `MissingAlg`.
    pub fn alg(&self) -> (r: Result<Alg, Error>)
        ensures
            r == match self.alg {
                Some(a) => Ok::<Alg, Error>(a),
                None => Err::<Alg, Error>(Error::MissingAlg),
            },
    {
        match self.alg {
            Some(a) => Ok(a),
            None => Err(Error::MissingAlg),
        }
    }

    /// The requested encoding. For consistency with the other accessors;
    /// since the encoding is always set, this always succeeds.
    pub fn encoding(self) -> (r: Result<Encoding, Error>)
        ensures
            r == Ok::<Encoding, Error>(self.encoding),
    {
        Ok(self.encoding)
    }

    /// The requested format, or `MissingFormat`.
    pub fn format(self) -> (r: Result<Format, Error>)
        ensures
            r == match self.format {
                Some(f) => Ok::<Format, Error>(f),
                None => Err::<Format, Error>(Error::MissingFormat),
            },
    {
        match self.format {
            Some(f) => Ok(f),
            None => Err(Error::MissingFormat),
        }
    }

    /// Fill every unset target field from a discovered key: the
    /// algorithm, key type and format default to those of the key. Set
    /// fields, and all other fields, are left untouched. Called once
    /// after discovery; conversion reads the result.
    pub fn resolve_defaults(&mut self, key_info: &KeyInfo)
        ensures
            final(self)@ =~= (AppStateView {
                alg: match old(self)@.alg {
                    Some(a) => Some(a),
                    None => Some(key_info@.alg),
                },
                key_type: match old(self)@.key_type {
                    Some(k) => Some(k),
                    None => Some(key_info@.key_type),
                },
                format: match old(self)@.format {
                    Some(f) => Some(f),
                    None => Some(key_info@.format),
                },
                ..old(self)@
            }),
    {
        if self.alg.is_none() {
            self.alg = Some(key_info.alg);
        }
        if self.key_type.is_none() {
            self.key_type = Some(key_info.key_type);
        }
        if self.format.is_none() {
            self.format = Some(key_info.format);
        }
    }
}

impl Default for AppState {
    /// The same fresh request as [`AppState::new`].
    fn default() -> (r: Self)
        ensures
            r@ =~= spec_app_state_new(),
    {
        Self::new()
    }
}

} // verus!
