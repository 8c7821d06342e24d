//! What becomes of a callback handler's result: the answer given back to
//! librdb, and the error kept for the caller of the parse.

use vstd::prelude::*;

use crate::types::{parser_error, pending_model, RdbError, RdbErrorModel};

verus! {

/// The state shared by all callbacks of one parser: the user's handler and the
/// first error that stopped the parse.
pub struct HandlerState<H> {
    pub handler: H,
    pub last_error: Option<RdbError>,
}

/// The answer a callback gives librdb.
#[derive(Debug, Clone, Copy, PartialEq, Eq)]
pub enum RdbRes {
    /// Go on parsing (librdb's `RDB_OK`).
    Proceed,
    /// Stop parsing (librdb's `RDB_ERR_CANCEL_PARSING`).
    CancelParsing,
}

/// The error kept when a handler panicked.
pub open spec fn panic_error() -> RdbErrorModel {
    parser_error(0, "handler panicked"@)
}

/// The error a state keeps after a guarded callback: the earlier one when the
/// handler succeeded, the handler's error when it failed, the panic error when
/// it panicked.
pub open spec fn settled_error(
    prev: Option<RdbError>,
    outcome: Option<Result<(), RdbError>>,
) -> Option<RdbErrorModel> {
    match outcome {
        Some(Ok(())) => pending_model(prev),
        Some(Err(e)) => Some(e@),
        None => Some(panic_error()),
    }
}

/// Turns a handler's result into librdb's answer: success goes on; an error is
/// kept in the state and cancels the parse. The handler is left as it is.
pub fn dispatch<H>(state: &mut HandlerState<H>, result: Result<(), RdbError>) -> (r: RdbRes)
    ensures
        final(state).handler == old(state).handler,
        match result {
            Ok(()) => r == RdbRes::Proceed && final(state).last_error == old(state).last_error,
            Err(e) => r == RdbRes::CancelParsing && final(state).last_error == Some(e),
        },
{
    match result {
        Ok(()) => RdbRes::Proceed,
        Err(e) => {
            state.last_error = Some(e);
            RdbRes::CancelParsing
        },
    }
}

/// Settles one callback whose work ran under a panic guard: `outcome` is the
/// handler's result, or `None` when the handler panicked. A panic is kept as a
/// parser error "handler panicked" and cancels the parse.
pub fn settle<H>(state: &mut HandlerState<H>, outcome: Option<Result<(), RdbError>>) -> (r: RdbRes)
    ensures
        final(state).handler == old(state).handler,
        pending_model(final(state).last_error) == settled_error(old(state).last_error, outcome),
        match outcome {
            Some(Ok(())) => r == RdbRes::Proceed && final(state).last_error == old(state).last_error,
            Some(Err(e)) => r == RdbRes::CancelParsing && final(state).last_error == Some(e),
            None => r == RdbRes::CancelParsing && final(state).last_error is Some
                && final(state).last_error->0@ == panic_error(),
        },
{
    match outcome {
        Some(result) => dispatch(state, result),
        None => {
            state.last_error = Some(
                RdbError::Parser { code: 0, message: String::from_str("handler panicked") },
            );
            RdbRes::CancelParsing
        },
    }
}

} // verus!
