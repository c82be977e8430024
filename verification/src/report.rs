//! What a run measured, and the throughput that follows from it.

use vstd::prelude::*;

verus! {

/// Nanoseconds in a second.
pub const NANOS_PER_SECOND: u128 = 1_000_000_000;

/// Nanoseconds in a millisecond.
pub const NANOS_PER_MILLI: u128 = 1_000_000;

/// The outcome of one run: how many moves were counted, and in what time.
#[derive(Clone, Copy, Debug, PartialEq, Eq, Structural)]
pub struct Measurement {
    /// The number of moves counted.
    pub count: usize,
    /// The time taken, in nanoseconds.
    pub elapsed_nanos: u128,
}

/// The figures that are reported of a run.
#[derive(Clone, Copy, Debug, PartialEq, Eq, Structural)]
pub struct Throughput {
    /// The whole seconds of the time taken.
    pub seconds: u128,
    /// The whole milliseconds of what is left of the time: less than 1000.
    pub millis: u128,
    /// The number of moves counted.
    pub count: usize,
    /// The number of moves counted for each second taken, rounded down.
    pub per_second: u128,
}

/// Why no throughput can be given.
#[derive(Clone, Copy, Debug, PartialEq, Eq, Structural)]
pub enum ReportError {
    /// The run took no time that the clock could tell.
    NoTimeElapsed,
}

/// The number of moves for each second, rounded down, where `count` moves
/// took `nanos` nanoseconds.
pub open spec fn rate(count: int, nanos: int) -> int
    recommends
        count >= 0,
        nanos > 0,
{
    count * 1_000_000_000 / nanos
}

/// The figures for `count` moves in `nanos` nanoseconds.
pub open spec fn figures(count: usize, nanos: u128) -> Throughput
    recommends
        nanos > 0,
{
    Throughput {
        seconds: nanos / NANOS_PER_SECOND,
        millis: nanos % NANOS_PER_SECOND / NANOS_PER_MILLI,
        count,
        per_second: rate(count as int, nanos as int) as u128,
    }
}

/// The number of moves counted for each second taken, rounded down. The
/// product is taken in 128 bits, which hold it for every count. Fails
/// exactly when no time was taken.
pub fn moves_per_second(count: usize, elapsed_nanos: u128) -> (per_second: Result<u128, ReportError>)
    ensures
        elapsed_nanos == 0 ==> per_second == Err::<u128, ReportError>(ReportError::NoTimeElapsed),
        elapsed_nanos > 0 ==> per_second == Ok::<u128, ReportError>(
            rate(count as int, elapsed_nanos as int) as u128,
        ),
        elapsed_nanos > 0 ==> 0 <= rate(count as int, elapsed_nanos as int) <= count * 1_000_000_000,
{
    if elapsed_nanos == 0 {
        return Err(ReportError::NoTimeElapsed);
    }
    let scaled: u128 = count as u128 * NANOS_PER_SECOND;
    let per_second: u128 = scaled / elapsed_nanos;
    assert(per_second <= scaled) by (nonlinear_arith)
        requires
            per_second == scaled / elapsed_nanos,
            elapsed_nanos > 0,
    ;
    Ok(per_second)
}

/// The figures to report of a measurement: the time taken as seconds and
/// milliseconds, the count, and the throughput. Fails exactly when no time
/// was taken.
pub fn throughput(measured: Measurement) -> (report: Result<Throughput, ReportError>)
    ensures
        measured.elapsed_nanos == 0 ==> report == Err::<Throughput, ReportError>(
            ReportError::NoTimeElapsed,
        ),
        measured.elapsed_nanos > 0 ==> report == Ok::<Throughput, ReportError>(
            figures(measured.count, measured.elapsed_nanos),
        ),
        report matches Ok(t) ==> t.millis < 1000 && t.seconds * NANOS_PER_SECOND + t.millis
            * NANOS_PER_MILLI <= measured.elapsed_nanos,
{
    match moves_per_second(measured.count, measured.elapsed_nanos) {
        Err(e) => Err(e),
        Ok(per_second) => Ok(
            Throughput {
                seconds: measured.elapsed_nanos / NANOS_PER_SECOND,
                millis: measured.elapsed_nanos % NANOS_PER_SECOND / NANOS_PER_MILLI,
                count: measured.count,
                per_second,
            },
        ),
    }
}

} // verus!
