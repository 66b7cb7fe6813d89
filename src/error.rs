//! The errors of a conversation with a server.
use vstd::prelude::*;
use crate::util::strings_view;

verus! {

/// What can go wrong in a conversation with a server.
#[derive(Debug)]
pub enum Baps3Error {
    /// A command failed.
    CmdFailed { advice: String },
    /// A command was invalid.
    CmdInvalid { advice: String },
    /// The server hung up while we were waiting for it to tell us something.
    HungUp,
    /// A path somewhere was invalid.
    InvalidPath { path: String },
    /// General I/O error.
    Io { err: std::io::Error },
    /// The server did not have the required feature set.
    MissingFeatures { wanted: Vec<String>, have: Vec<String> },
    /// The server is not speaking the BAPS3 protocol.
    NotBaps3Server,
    /// The server sent a response other than the one expected.
    UnexpectedResponse { code: String, args: Vec<String>, expectation: String },
}

/// What an error holds, with its strings as character sequences.
pub enum ErrorView {
    CmdFailed { advice: Seq<char> },
    CmdInvalid { advice: Seq<char> },
    HungUp,
    InvalidPath { path: Seq<char> },
    Io,
    MissingFeatures { wanted: Seq<Seq<char>>, have: Seq<Seq<char>> },
    NotBaps3Server,
    UnexpectedResponse { code: Seq<char>, args: Seq<Seq<char>>, expectation: Seq<char> },
}

impl View for Baps3Error {
    type V = ErrorView;

    open spec fn view(&self) -> ErrorView {
        match self {
            Baps3Error::CmdFailed { advice } => ErrorView::CmdFailed { advice: advice@ },
            Baps3Error::CmdInvalid { advice } => ErrorView::CmdInvalid { advice: advice@ },
            Baps3Error::HungUp => ErrorView::HungUp,
            Baps3Error::InvalidPath { path } => ErrorView::InvalidPath { path: path@ },
            Baps3Error::Io { .. } => ErrorView::Io,
            Baps3Error::MissingFeatures { wanted, have } => ErrorView::MissingFeatures {
                wanted: strings_view(wanted@),
                have: strings_view(have@),
            },
            Baps3Error::NotBaps3Server => ErrorView::NotBaps3Server,
            Baps3Error::UnexpectedResponse { code, args, expectation } =>
                ErrorView::UnexpectedResponse {
                code: code@,
                args: strings_view(args@),
                expectation: expectation@,
            },
        }
    }
}

/// The view of a result that carries nothing on success.
pub open spec fn unit_result_view(r: Result<(), Baps3Error>) -> Result<(), ErrorView> {
    match r {
        Ok(()) => Ok(()),
        Err(e) => Err(e@),
    }
}

/// A short description of each kind of error.
pub open spec fn error_description(e: Baps3Error) -> Seq<char> {
    match e {
        Baps3Error::CmdFailed { .. } => "command failed"@,
        Baps3Error::CmdInvalid { .. } => "command invalid"@,
        Baps3Error::HungUp => "server hung up"@,
        Baps3Error::InvalidPath { .. } => "invalid path"@,
        Baps3Error::Io { .. } => "input/output error"@,
        Baps3Error::MissingFeatures { .. } => "server missing features"@,
        Baps3Error::NotBaps3Server => "not a BAPS3 server"@,
        Baps3Error::UnexpectedResponse { .. } => "unexpected response"@,
    }
}

/// Returns the short description of the kind of an error.
pub fn baps3_err_desc(err: &Baps3Error) -> (r: &'static str)
    ensures
        r@ == error_description(*err),
{
    match err {
        Baps3Error::CmdFailed { .. } => "command failed",
        Baps3Error::CmdInvalid { .. } => "command invalid",
        Baps3Error::HungUp => "server hung up",
        Baps3Error::InvalidPath { .. } => "invalid path",
        Baps3Error::Io { .. } => "input/output error",
        Baps3Error::MissingFeatures { .. } => "server missing features",
        Baps3Error::NotBaps3Server => "not a BAPS3 server",
        Baps3Error::UnexpectedResponse { .. } => "unexpected response",
    }
}

impl Baps3Error {
    /// Returns the short description of the kind of this error.
    pub fn description(&self) -> (r: &'static str)
        ensures
            r@ == error_description(*self),
    {
        baps3_err_desc(self)
    }
}

} // verus!
