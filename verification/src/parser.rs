//! The decisions of a parse: when a parse may start, what path librdb is
//! given, and what a finished or failed parse reports to its caller.
//!
//! librdb itself is driven from outside this module; each function here takes
//! what librdb answered as plain values and decides the next step.

use vstd::prelude::*;

use vstd::string::StringSliceAdditionalSpecFns;

use crate::decimal::{decimal, push_decimal};
use crate::dispatch::HandlerState;
use crate::types::{parser_error, pending_model, result_model, RdbError, RdbErrorModel};

verus! {

/// How `RDB_parse` ended.
#[derive(Debug, Clone, Copy, PartialEq, Eq)]
pub enum ParseStatus {
    /// `RDB_STATUS_OK`: the whole file was parsed.
    Completed,
    /// `RDB_STATUS_ERROR`: librdb stopped on an error.
    Error,
    /// Any other status, with librdb's numeric value.
    Unexpected(u32),
}

/// What librdb reports about its last error (`RDB_getErrorCode` and
/// `RDB_getErrorMessage`; `None` where the message pointer was null).
#[derive(Debug, Clone, PartialEq, Eq)]
pub struct LibraryError {
    pub code: u32,
    pub message: Option<String>,
}

/// The error for a librdb failure: librdb's code, and its message or, where
/// librdb gave none, `fallback`.
pub open spec fn library_report(library: LibraryError, fallback: Seq<char>) -> RdbErrorModel {
    parser_error(
        library.code,
        match library.message {
            Some(m) => m@,
            None => fallback,
        },
    )
}

/// Builds the error for a librdb failure, as [`library_report`] says.
pub fn extract_c_error(library: LibraryError, fallback: &str) -> (e: RdbError)
    ensures
        e@ == library_report(library, fallback@),
        e@ == (RdbErrorModel::Parser {
            code: library.code,
            message: if library.message is Some {
                library.message->0@
            } else {
                fallback@
            },
        }),
{
    let message = match library.message {
        Some(m) => m,
        None => String::from_str(fallback),
    };
    RdbError::Parser { code: library.code, message }
}

/// The error for a second parse on one parser.
pub open spec fn already_used() -> RdbErrorModel {
    parser_error(0, "parser already used; create a new Parser instance"@)
}

/// The error for a path that is not valid UTF-8.
pub open spec fn invalid_utf8_path() -> RdbErrorModel {
    parser_error(0, "path contains invalid UTF-8"@)
}

/// The error for a path with a NUL byte, which a C string cannot hold.
pub open spec fn nul_in_path() -> RdbErrorModel {
    parser_error(0, "path contains null byte"@)
}

/// The error for a status of `RDB_parse` that is neither success nor error.
pub open spec fn unexpected_status(status: u32) -> RdbErrorModel {
    parser_error(status, "unexpected parse status: "@ + decimal(status as nat))
}

/// The fallback message when librdb cannot open the file and gives no message.
pub open spec fn reader_fallback() -> Seq<char> {
    "RDBX_createReaderFile returned null"@
}

/// The fallback message when a parse fails and librdb gives no message.
pub open spec fn parse_fallback() -> Seq<char> {
    "parse failed"@
}

/// The UTF-8 bytes of a path, `None` where the path is not valid UTF-8.
pub open spec fn path_bytes(path: Option<&str>) -> Option<Seq<u8>> {
    match path {
        Some(p) => Some(p.spec_bytes()),
        None => None,
    }
}

/// Whether a parse may start with this path: a parser parses once; the path
/// must be UTF-8 and free of NUL bytes. On success, the bytes librdb is given.
pub open spec fn path_verdict(parsed: bool, path: Option<Seq<u8>>) -> Result<Seq<u8>, RdbErrorModel> {
    if parsed {
        Err(already_used())
    } else {
        match path {
            None => Err(invalid_utf8_path()),
            Some(bytes) => if bytes.contains(0u8) {
                Err(nul_in_path())
            } else {
                Ok(bytes)
            },
        }
    }
}

/// The outcome of a parse: success when librdb completed; otherwise the error a
/// handler left, else librdb's own error.
pub open spec fn parse_verdict(
    status: ParseStatus,
    pending: Option<RdbErrorModel>,
    reported: RdbErrorModel,
) -> Result<(), RdbErrorModel> {
    match status {
        ParseStatus::Completed => Ok(()),
        ParseStatus::Error => match pending {
            Some(e) => Err(e),
            None => Err(reported),
        },
        ParseStatus::Unexpected(s) => match pending {
            Some(e) => Err(e),
            None => Err(unexpected_status(s)),
        },
    }
}

/// Whether a parser has been given a file, after librdb was asked for a reader
/// (`attached` is whether it gave one).
pub open spec fn after_attach(parsed: bool, attached: bool) -> bool {
    parsed || attached
}

/// The parser's own state: the handler with the error a callback left, and
/// whether this parser has already been given a file.
pub struct Parser<H> {
    state: Box<HandlerState<H>>,
    parsed: bool,
}

impl<H> Parser<H> {
    /// The handler the parser holds.
    pub closed spec fn handler_model(&self) -> H {
        self.state.handler
    }

    /// Whether a file was already given to this parser.
    pub closed spec fn is_parsed(&self) -> bool {
        self.parsed
    }

    /// The error a callback left, not yet reported.
    pub closed spec fn pending_error(&self) -> Option<RdbError> {
        self.state.last_error
    }

    /// A parser that dispatches callbacks to `handler`.
    pub fn new(handler: H) -> (p: Self)
        ensures
            p.handler_model() == handler,
            !p.is_parsed(),
            p.pending_error() is None,
    {
        Parser { state: Box::new(HandlerState { handler, last_error: None }), parsed: false }
    }

    /// Borrows the handler, e.g. to inspect accumulated state after a parse failure.
    pub fn handler(&self) -> (h: &H)
        ensures
            *h == self.handler_model(),
    {
        &self.state.handler
    }

    /// Mutably borrows the handler.
    pub fn handler_mut(&mut self) -> (h: &mut H)
        ensures
            *h == old(self).handler_model(),
            final(self).handler_model() == *final(h),
            final(self).is_parsed() == old(self).is_parsed(),
            final(self).pending_error() == old(self).pending_error(),
    {
        &mut self.state.handler
    }

    /// Borrows the state the callbacks work on.
    pub fn state_mut(&mut self) -> (s: &mut HandlerState<H>)
        ensures
            s.handler == old(self).handler_model(),
            s.last_error == old(self).pending_error(),
            final(self).handler_model() == final(s).handler,
            final(self).pending_error() == final(s).last_error,
            final(self).is_parsed() == old(self).is_parsed(),
    {
        &mut self.state
    }

    /// Consumes the parser and returns the handler.
    pub fn into_handler(self) -> (h: H)
        ensures
            h == self.handler_model(),
    {
        self.state.handler
    }

    /// Checks that a parse may start with `path` (`None` where the path is not
    /// UTF-8) and returns the bytes of the path for librdb.
    pub fn prepare_path(&self, path: Option<&str>) -> (r: Result<Vec<u8>, RdbError>)
        ensures
            match path_verdict(self.is_parsed(), path_bytes(path)) {
                Ok(b) => r is Ok && r->Ok_0@ == b,
                Err(e) => r is Err && r->Err_0@ == e,
            },
            // A used parser refuses every path.
            self.is_parsed() ==> r is Err,
            // An unused parser refuses a UTF-8 path exactly when it holds a NUL byte,
            // and hands every other path over unchanged.
            !self.is_parsed() && path is Some ==> (r is Err <==> path->0.spec_bytes().contains(
                0u8,
            )),
            !self.is_parsed() && path is Some && !path->0.spec_bytes().contains(0u8) ==> r is Ok
                && r->Ok_0@ == path->0.spec_bytes(),
            !self.is_parsed() && path is None ==> r is Err,
    {
        if self.parsed {
            return Err(
                RdbError::Parser {
                    code: 0,
                    message: String::from_str("parser already used; create a new Parser instance"),
                },
            );
        }
        let p = match path {
            Some(p) => p,
            None => {
                return Err(
                    RdbError::Parser {
                        code: 0,
                        message: String::from_str("path contains invalid UTF-8"),
                    },
                );
            },
        };
        let bytes = p.as_bytes();
        let mut out: Vec<u8> = Vec::new();
        let mut i: usize = 0;
        while i < bytes.len()
            invariant
                path == Some(p),
                !self.is_parsed(),
                bytes@ == p.spec_bytes(),
                0 <= i <= bytes@.len(),
                out@ == bytes@.subrange(0, i as int),
                forall|j: int| 0 <= j < i ==> bytes@[j] != 0u8,
            decreases bytes@.len() - i,
        {
            if bytes[i] == 0 {
                assert(bytes@[i as int] == 0u8);
                assert(bytes@.contains(0u8));
                return Err(
                    RdbError::Parser { code: 0, message: String::from_str("path contains null byte") },
                );
            }
            out.push(bytes[i]);
            i = i + 1;
            assert(out@ =~= bytes@.subrange(0, i as int));
        }
        assert(out@ =~= bytes@);
        assert(!bytes@.contains(0u8));
        Ok(out)
    }

    /// Records whether librdb attached a reader for the file. A parser that got
    /// a reader is used up, whatever the parse then does; a failure to attach is
    /// librdb's error and leaves the parser as it was.
    pub fn attach_reader(&mut self, attached: bool, library: LibraryError) -> (r: Result<(), RdbError>)
        ensures
            final(self).handler_model() == old(self).handler_model(),
            final(self).pending_error() == old(self).pending_error(),
            final(self).is_parsed() == after_attach(old(self).is_parsed(), attached),
            attached ==> r is Ok && final(self).is_parsed(),
            !attached ==> final(self).is_parsed() == old(self).is_parsed(),
            !attached ==> r is Err && r->Err_0@ == library_report(library, reader_fallback()),
    {
        if !attached {
            return Err(extract_c_error(library, "RDBX_createReaderFile returned null"));
        }
        self.parsed = true;
        Ok(())
    }

    /// Reports how the parse ended. A handler's error is returned as it is, and
    /// taken out of the state; otherwise librdb's error is reported.
    pub fn run_parse(&mut self, status: ParseStatus, library: LibraryError) -> (r: Result<(), RdbError>)
        ensures
            result_model(r) == parse_verdict(
                status,
                pending_model(old(self).pending_error()),
                library_report(library, parse_fallback()),
            ),
            status != ParseStatus::Completed && old(self).pending_error() is Some ==> r == Err::<
                (),
                RdbError,
            >(old(self).pending_error()->0),
            final(self).pending_error() == (if status == ParseStatus::Completed {
                old(self).pending_error()
            } else {
                None
            }),
            final(self).handler_model() == old(self).handler_model(),
            final(self).is_parsed() == old(self).is_parsed(),
            // Only a completed parse succeeds.
            r is Ok <==> status == ParseStatus::Completed,
            // Without a handler's error, a parse stopped on an error reports librdb's
            // code and message (or "parse failed" where librdb gave none).
            status == ParseStatus::Error && old(self).pending_error() is None ==> r is Err
                && r->Err_0@ == (RdbErrorModel::Parser {
                    code: library.code,
                    message: if library.message is Some {
                        library.message->0@
                    } else {
                        "parse failed"@
                    },
                }),
    {
        let code = match status {
            ParseStatus::Completed => {
                return Ok(());
            },
            ParseStatus::Error => None,
            ParseStatus::Unexpected(s) => Some(s),
        };
        if let Some(handler_err) = self.state.last_error.take() {
            return Err(handler_err);
        }
        match code {
            None => Err(extract_c_error(library, "parse failed")),
            Some(s) => {
                let mut message = String::from_str("unexpected parse status: ");
                push_decimal(&mut message, s as u64);
                Err(RdbError::Parser { code: s, message })
            },
        }
    }
}

} // verus!
