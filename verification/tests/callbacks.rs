//! Callback sequences driven the way librdb drives them: each callback's
//! outcome is settled, librdb stops at the first cancel, and the parse then
//! reports how it ended.

use librdb::dispatch::{settle, RdbRes};
use librdb::parser::{LibraryError, ParseStatus};
use librdb::raw::RdbKeyInfo;
use librdb::{DataType, KeyInfo, Parser, RdbError};

/// Feeds `keys` new-key callbacks to `on_new_key` until one cancels, as librdb
/// does, then ends the parse; returns how many callbacks ran and the result.
fn run_new_keys<H>(
    parser: &mut Parser<H>,
    keys: usize,
    on_new_key: impl Fn(&mut H) -> Result<(), RdbError>,
) -> (usize, Result<(), RdbError>) {
    let mut ran = 0;
    let mut cancelled = false;
    for _ in 0..keys {
        let state = parser.state_mut();
        let outcome = Some(on_new_key(&mut state.handler));
        ran += 1;
        if settle(state, outcome) == RdbRes::CancelParsing {
            cancelled = true;
            break;
        }
    }
    let status = if cancelled { ParseStatus::Error } else { ParseStatus::Completed };
    let library = LibraryError { code: 0, message: Some("parsing cancelled".to_string()) };
    (ran, parser.run_parse(status, library))
}

#[test]
fn handler_error_propagates() {
    let mut parser = Parser::new(0usize);
    let (_, r) = run_new_keys(&mut parser, 6, |count| {
        *count += 1;
        if *count >= 2 {
            return Err(RdbError::Handler("deliberate error".into()));
        }
        Ok(())
    });
    let err = r.unwrap_err();
    assert!(err.to_string().contains("deliberate error"), "expected handler error, got: {err:?}");
}

#[test]
fn early_termination_no_further_callbacks() {
    let mut parser = Parser::new(0usize);
    let (ran, r) = run_new_keys(&mut parser, 6, |count| {
        *count += 1;
        if *count == 1 {
            return Err(RdbError::Handler("stop".into()));
        }
        Ok(())
    });
    assert!(r.is_err());
    assert_eq!(ran, 1, "no callbacks after Err");
    assert_eq!(parser.into_handler(), 1, "only one key should have been seen");
}

#[test]
fn handler_accessible_after_failure() {
    let mut parser = Parser::new(0usize);
    let (_, r) = run_new_keys(&mut parser, 6, |count| {
        *count += 1;
        if *count == 3 {
            return Err(RdbError::Handler("stop at 3".into()));
        }
        Ok(())
    });
    assert!(r.is_err());
    assert_eq!(*parser.handler(), 3, "handler state accessible after failure");
}

#[test]
fn handler_panic_is_caught() {
    let mut parser = Parser::new(());
    // A panicking handler leaves no result: the outcome is `None`.
    assert_eq!(settle(parser.state_mut(), None), RdbRes::CancelParsing);
    let err = parser.run_parse(ParseStatus::Error, LibraryError { code: 0, message: None }).unwrap_err();
    assert!(err.to_string().contains("panicked"), "expected panic error, got: {err:?}");
}

#[test]
fn all_keys_seen_when_handler_succeeds() {
    let mut parser = Parser::new(0usize);
    let (ran, r) = run_new_keys(&mut parser, 6, |count| {
        *count += 1;
        Ok(())
    });
    assert_eq!(r, Ok(()));
    assert_eq!(ran, 6);
    assert_eq!(parser.into_handler(), 6);
}

#[test]
fn expiry_none_when_not_set() {
    // librdb reports -1 for a key without expiry.
    let raw = RdbKeyInfo { expiretime: -1, lru_idle: -1, lfu_freq: -1, data_type: 0 };
    let info = KeyInfo::from_raw(&raw).expect("known data type");
    assert_eq!(info.expire_time_ms, None, "expected no expiry");
    assert_eq!(info.data_type, DataType::String);
}

#[test]
fn lru_metadata_present() {
    let raw = RdbKeyInfo { expiretime: -1, lru_idle: 12, lfu_freq: -1, data_type: 0 };
    let info = KeyInfo::from_raw(&raw).expect("known data type");
    assert!(matches!(info.lru_idle, Some(_)), "expected Some(idle) for an LRU key");
    assert_eq!(info.lru_idle, Some(12));
}

#[test]
fn lru_metadata_absent() {
    let raw = RdbKeyInfo { expiretime: -1, lru_idle: -1, lfu_freq: -1, data_type: 0 };
    let info = KeyInfo::from_raw(&raw).expect("known data type");
    assert_eq!(info.lru_idle, None, "no LRU policy");
}
