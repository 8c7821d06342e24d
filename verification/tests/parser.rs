use librdb::dispatch::{dispatch, settle, RdbRes};
use librdb::parser::{extract_c_error, LibraryError, ParseStatus};
use librdb::{HandlerState, Parser, RdbError};

fn no_library_error() -> LibraryError {
    LibraryError { code: 0, message: None }
}

fn parser_error(code: u32, message: &str) -> RdbError {
    RdbError::Parser { code, message: message.to_string() }
}

#[test]
fn dispatch_ok_proceeds() {
    let mut state = HandlerState { handler: 5u32, last_error: None };
    assert_eq!(dispatch(&mut state, Ok(())), RdbRes::Proceed);
    assert_eq!(state.last_error, None);
    assert_eq!(state.handler, 5);
}

#[test]
fn dispatch_err_cancels_and_keeps_error() {
    let mut state = HandlerState { handler: 5u32, last_error: None };
    let e = RdbError::Handler("stop".to_string());
    assert_eq!(dispatch(&mut state, Err(e.clone())), RdbRes::CancelParsing);
    assert_eq!(state.last_error, Some(e));
    assert_eq!(state.handler, 5);
}

#[test]
fn settle_ok_keeps_earlier_error() {
    let earlier = RdbError::Handler("earlier".to_string());
    let mut state = HandlerState { handler: (), last_error: Some(earlier.clone()) };
    assert_eq!(settle(&mut state, Some(Ok(()))), RdbRes::Proceed);
    assert_eq!(state.last_error, Some(earlier));
}

#[test]
fn settle_panic_becomes_parser_error() {
    let mut state = HandlerState { handler: (), last_error: None };
    assert_eq!(settle(&mut state, None), RdbRes::CancelParsing);
    assert_eq!(state.last_error, Some(parser_error(0, "handler panicked")));
}

#[test]
fn settle_error_replaces_earlier_error() {
    let mut state =
        HandlerState { handler: (), last_error: Some(RdbError::Handler("old".to_string())) };
    let e = RdbError::Handler("new".to_string());
    assert_eq!(settle(&mut state, Some(Err(e.clone()))), RdbRes::CancelParsing);
    assert_eq!(state.last_error, Some(e));
}

#[test]
fn new_parser_holds_handler() {
    let mut parser = Parser::new(vec![1u8, 2]);
    assert_eq!(parser.handler(), &vec![1u8, 2]);
    parser.handler_mut().push(3);
    assert_eq!(parser.handler(), &vec![1u8, 2, 3]);
    assert_eq!(parser.state_mut().last_error, None);
    assert_eq!(parser.into_handler(), vec![1u8, 2, 3]);
}

#[test]
fn prepare_path_gives_bytes() {
    let parser = Parser::new(());
    assert_eq!(parser.prepare_path(Some("/tmp/dump.rdb")), Ok(b"/tmp/dump.rdb".to_vec()));
    assert_eq!(parser.prepare_path(Some("")), Ok(Vec::new()));
    assert_eq!(parser.prepare_path(Some("dümp.rdb")), Ok("dümp.rdb".as_bytes().to_vec()));
}

#[test]
fn prepare_path_rejects_non_utf8() {
    let parser = Parser::new(());
    assert_eq!(parser.prepare_path(None), Err(parser_error(0, "path contains invalid UTF-8")));
}

#[test]
fn prepare_path_rejects_nul_byte() {
    let parser = Parser::new(());
    assert_eq!(parser.prepare_path(Some("a\0b")), Err(parser_error(0, "path contains null byte")));
    assert_eq!(parser.prepare_path(Some("\0")), Err(parser_error(0, "path contains null byte")));
}

#[test]
fn failed_reader_leaves_parser_unused() {
    let mut parser = Parser::new(());
    let err = parser.attach_reader(
        false,
        LibraryError { code: 9, message: Some("Failed to open RDB file".to_string()) },
    );
    assert_eq!(err, Err(parser_error(9, "Failed to open RDB file")));
    assert!(parser.prepare_path(Some("dump.rdb")).is_ok());
    let err = parser.attach_reader(false, no_library_error());
    assert_eq!(err, Err(parser_error(0, "RDBX_createReaderFile returned null")));
}

#[test]
fn parse_file_twice_returns_error() {
    let mut parser = Parser::new(());
    assert!(parser.prepare_path(Some("empty.rdb")).is_ok());
    assert_eq!(parser.attach_reader(true, no_library_error()), Ok(()));
    assert_eq!(parser.run_parse(ParseStatus::Completed, no_library_error()), Ok(()));
    let err = parser.prepare_path(Some("empty.rdb")).unwrap_err();
    assert!(err.to_string().contains("already used"));
    assert_eq!(err, parser_error(0, "parser already used; create a new Parser instance"));
    // The refusal comes before any check of the path.
    assert_eq!(
        parser.prepare_path(None),
        Err(parser_error(0, "parser already used; create a new Parser instance"))
    );
}

#[test]
fn failed_parse_also_uses_up_parser() {
    let mut parser = Parser::new(());
    assert_eq!(parser.attach_reader(true, no_library_error()), Ok(()));
    assert!(parser.run_parse(ParseStatus::Error, no_library_error()).is_err());
    assert!(parser.prepare_path(Some("dump.rdb")).is_err());
}

#[test]
fn completed_parse_succeeds() {
    let mut parser = Parser::new(());
    assert_eq!(parser.run_parse(ParseStatus::Completed, no_library_error()), Ok(()));
}

#[test]
fn handler_error_is_returned_and_taken() {
    let mut parser = Parser::new(0usize);
    *parser.handler_mut() = 3;
    let e = RdbError::Handler("stop at 3".to_string());
    assert_eq!(settle(parser.state_mut(), Some(Err(e.clone()))), RdbRes::CancelParsing);
    let r = parser.run_parse(
        ParseStatus::Error,
        LibraryError { code: 5, message: Some("cancelled".to_string()) },
    );
    assert_eq!(r, Err(e));
    assert_eq!(parser.state_mut().last_error, None);
    assert_eq!(*parser.handler(), 3);
}

#[test]
fn handler_panic_becomes_parse_error() {
    let mut parser = Parser::new(());
    settle(parser.state_mut(), None);
    let err = parser.run_parse(ParseStatus::Error, no_library_error()).unwrap_err();
    assert!(err.to_string().contains("panicked"));
    assert_eq!(err.to_string(), "parser error (code 0): handler panicked");
}

#[test]
fn library_error_reported_without_handler_error() {
    let mut parser = Parser::new(());
    let r = parser.run_parse(
        ParseStatus::Error,
        LibraryError { code: 14, message: Some("Unsupported RDB version".to_string()) },
    );
    assert_eq!(r, Err(parser_error(14, "Unsupported RDB version")));
    let r = parser.run_parse(ParseStatus::Error, LibraryError { code: 2, message: None });
    assert_eq!(r, Err(parser_error(2, "parse failed")));
}

#[test]
fn unexpected_status_reported() {
    let mut parser = Parser::new(());
    let r = parser.run_parse(ParseStatus::Unexpected(2), no_library_error());
    assert_eq!(r, Err(parser_error(2, "unexpected parse status: 2")));
}

#[test]
fn unexpected_status_yields_to_handler_error() {
    let mut parser = Parser::new(());
    let e = RdbError::Handler("deliberate error".to_string());
    dispatch(parser.state_mut(), Err(e.clone()));
    assert_eq!(parser.run_parse(ParseStatus::Unexpected(1), no_library_error()), Err(e));
}

#[test]
fn extract_c_error_uses_fallback() {
    assert_eq!(
        extract_c_error(LibraryError { code: 4, message: None }, "fallback"),
        parser_error(4, "fallback")
    );
    assert_eq!(
        extract_c_error(LibraryError { code: 4, message: Some("msg".to_string()) }, "fallback"),
        parser_error(4, "msg")
    );
}
