//! What holds of the taps and dispositions whatever the result and the
//! sinks are. Each law is stated of the calls themselves: of what a call
//! asks for and of what it can return.

use vstd::prelude::*;
use crate::data::Direction;
use crate::error::{diagnostic, FatalError, LoggableError};
use crate::record::DiagnosticRecord;

verus! {

/// The opposite of the opposite is the direction itself; a direction and its
/// opposite differ and lie on the same axis, and every direction lies on
/// exactly one axis.
pub proof fn law_opposite_directions(direction: Direction)
    ensures
        direction.opposite().opposite() == direction,
        direction.opposite() != direction,
        direction.opposite().horizontal() == direction.horizontal(),
        direction.horizontal() != direction.vertical(),
{
}

/// A success is shown to no sink. `print_error` asks nothing of the sink when
/// the result is a success, so it cannot call it, whatever it is; and the
/// success comes back as it went in.
pub proof fn law_success_is_not_shown<T, F: Fn(&str)>(
    value: T,
    fun: F,
    passed: Result<T, anyhow::Error>,
)
    ensures
        call_requires(
            <Result<T, anyhow::Error> as LoggableError<T>>::print_error::<F>,
            (Ok(value), fun),
        ),
        call_ensures(
            <Result<T, anyhow::Error> as LoggableError<T>>::print_error::<F>,
            (Ok(value), fun),
            passed,
        ) ==> passed == Ok::<T, anyhow::Error>(value),
{
}

/// A success is disposed of without a trace. `non_fatal` asks nothing of the
/// logger when the result is a success, so it cannot call it; `fatal` takes
/// every success and hands out the very value that it holds.
pub proof fn law_success_is_disposed_quietly<T, L: Fn(&DiagnosticRecord)>(
    value: T,
    file: &str,
    line: u32,
    logger: L,
    returned: T,
)
    ensures
        call_requires(
            <Result<T, anyhow::Error> as FatalError<T>>::non_fatal::<L>,
            (Ok(value), file, line, logger),
        ),
        call_requires(<Result<T, anyhow::Error> as FatalError<T>>::fatal, (Ok(value),)),
        call_ensures(<Result<T, anyhow::Error> as FatalError<T>>::fatal, (Ok(value),), returned)
            ==> returned == value,
{
}

/// Taps can be chained. When a result has gone through `print_error` with one
/// sink and then with another, it comes out as it went in, and for a failure
/// what each sink promises of a call holds of the one diagnostic of that
/// failure.
pub proof fn law_taps_chain<T, F: Fn(&str), G: Fn(&str)>(
    result: Result<T, anyhow::Error>,
    first: F,
    second: G,
    between: Result<T, anyhow::Error>,
    passed: Result<T, anyhow::Error>,
)
    requires
        call_ensures(
            <Result<T, anyhow::Error> as LoggableError<T>>::print_error::<F>,
            (result, first),
            between,
        ),
        call_ensures(
            <Result<T, anyhow::Error> as LoggableError<T>>::print_error::<G>,
            (between, second),
            passed,
        ),
    ensures
        passed == result,
        diagnostic(result.failure()) matches Some(text) ==> {
            &&& exists|message: &str| message@ == text && #[trigger] call_ensures(first, (message,), ())
            &&& exists|message: &str|
                message@ == text && #[trigger] call_ensures(second, (message,), ())
        },
{
}

} // verus!
