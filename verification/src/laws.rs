//! Properties that span the parser's steps.

use vstd::prelude::*;

use crate::decimal::{decimal, digit_char};
use crate::dispatch::{panic_error, settled_error};
use crate::parser::{
    after_attach, already_used, library_report, parse_fallback, parse_verdict, path_verdict,
    LibraryError, ParseStatus,
};
use crate::types::{data_type_of, error_text, present_i32, present_i64, RdbError, RdbErrorModel};

verus! {

/// A parser parses once: after librdb attached a reader for a file, every later
/// request to parse, with any path, is refused as "already used", whether or
/// not the parse went well.
pub proof fn lemma_parser_parses_once(parsed: bool, path: Option<Seq<u8>>)
    ensures
        path_verdict(after_attach(parsed, true), path) == Err::<Seq<u8>, RdbErrorModel>(
            already_used(),
        ),
{
}

/// A handler's error reaches the caller: when a callback's handler returned
/// `Err(e)` and the parse did not complete, the parse returns `e`, whatever
/// error an earlier callback left and whatever librdb reports.
pub proof fn lemma_handler_error_returned(
    prev: Option<RdbError>,
    e: RdbError,
    status: ParseStatus,
    library: LibraryError,
)
    requires
        status != ParseStatus::Completed,
    ensures
        parse_verdict(
            status,
            settled_error(prev, Some(Err(e))),
            library_report(library, parse_fallback()),
        ) == Err::<(), RdbErrorModel>(e@),
{
}

/// A panic in a handler becomes an error of the parse: when a handler panicked
/// and the parse did not complete, the parse fails with the error whose text is
/// "parser error (code 0): handler panicked".
pub proof fn lemma_handler_panic_returned(
    prev: Option<RdbError>,
    status: ParseStatus,
    library: LibraryError,
)
    requires
        status != ParseStatus::Completed,
    ensures
        parse_verdict(status, settled_error(prev, None), library_report(library, parse_fallback()))
            == Err::<(), RdbErrorModel>(panic_error()),
        error_text(panic_error()) == "parser error (code 0): handler panicked"@,
{
    reveal_strlit("parser error (code 0): handler panicked");
    reveal_strlit("parser error (code ");
    reveal_strlit("): ");
    reveal_strlit("handler panicked");
    assert(decimal(0) == seq!['0']);
    assert(error_text(panic_error()) =~= "parser error (code 0): handler panicked"@);
}

/// Distinct data type codes of librdb give distinct data types.
pub proof fn lemma_data_type_codes_distinct(a: i32, b: i32)
    requires
        data_type_of(a) is Some,
        data_type_of(a) == data_type_of(b),
    ensures
        a == b,
{
}

/// A path is refused only for a reason: a used parser refuses every path, and
/// an unused one refuses a UTF-8 path exactly when its bytes hold the NUL byte
/// 0, handing every other path to librdb byte for byte.
pub proof fn lemma_path_refused_only_for_nul(bytes: Seq<u8>, path: Option<Seq<u8>>)
    ensures
        path_verdict(true, path) is Err,
        path_verdict(false, None) is Err,
        path_verdict(false, Some(bytes)) is Err <==> bytes.contains(0u8),
        !bytes.contains(0u8) ==> path_verdict(false, Some(bytes)) == Ok::<Seq<u8>, RdbErrorModel>(
            bytes,
        ),
{
}

/// Only a parse that librdb completed succeeds: any other status gives an
/// error, whatever a handler left and whatever librdb reports; a parse that
/// stopped on librdb's error with no handler error reports librdb's error.
pub proof fn lemma_unfinished_parse_fails(
    status: ParseStatus,
    pending: Option<RdbErrorModel>,
    reported: RdbErrorModel,
)
    ensures
        parse_verdict(status, pending, reported) is Ok <==> status == ParseStatus::Completed,
        parse_verdict(ParseStatus::Error, None, reported) == Err::<(), RdbErrorModel>(reported),
        pending is Some && status != ParseStatus::Completed ==> parse_verdict(
            status,
            pending,
            reported,
        ) == Err::<(), RdbErrorModel>(pending->0),
{
}

/// librdb's -1 is the only value read as absent; every other value is kept.
pub proof fn lemma_absent_only_for_minus_one(v: i64, w: i32)
    ensures
        present_i64(v) is None <==> v == -1,
        v != -1 ==> present_i64(v) == Some(v),
        present_i32(w) is None <==> w == -1,
        w != -1 ==> present_i32(w) == Some(w),
{
}

/// The data type codes that librdb defines are exactly 0 to 8.
pub proof fn lemma_known_data_type_codes(v: i32)
    ensures
        data_type_of(v) is Some <==> 0 <= v <= 8,
{
}

/// The number a sequence of decimal digits stands for.
pub open spec fn digits_value(s: Seq<char>) -> nat
    decreases s.len(),
{
    if s.len() == 0 {
        0
    } else {
        digits_value(s.drop_last()) * 10 + ((s.last() as int) - ('0' as int)) as nat
    }
}

proof fn lemma_digit_char(d: nat)
    requires
        d < 10,
    ensures
        '0' <= digit_char(d) <= '9',
        (digit_char(d) as int) - ('0' as int) == d,
{
    let ds = seq!['0', '1', '2', '3', '4', '5', '6', '7', '8', '9'];
    assert(ds[0] == '0' && ds[1] == '1' && ds[2] == '2' && ds[3] == '3' && ds[4] == '4');
    assert(ds[5] == '5' && ds[6] == '6' && ds[7] == '7' && ds[8] == '8' && ds[9] == '9');
}

/// The decimal writing of a number is made of digits, has no leading zero, and
/// reads back as that number.
pub proof fn lemma_decimal_reads_back(n: nat)
    ensures
        decimal(n).len() >= 1,
        forall|i: int| 0 <= i < decimal(n).len() ==> '0' <= #[trigger] decimal(n)[i] <= '9',
        n > 0 ==> decimal(n)[0] != '0',
        digits_value(decimal(n)) == n,
    decreases n,
{
    if n < 10 {
        lemma_digit_char(n);
        let s = decimal(n);
        assert(s.drop_last() =~= Seq::<char>::empty());
        assert(digits_value(s.drop_last()) == 0);
        assert(s.last() == digit_char(n));
    } else {
        lemma_decimal_reads_back(n / 10);
        lemma_digit_char(n % 10);
        let s = decimal(n);
        assert(s.drop_last() =~= decimal(n / 10));
        assert(s.last() == digit_char(n % 10));
        assert(digits_value(s) == digits_value(decimal(n / 10)) * 10 + n % 10);
        assert((n / 10) * 10 + n % 10 == n) by (nonlinear_arith);
    }
}

} // verus!
