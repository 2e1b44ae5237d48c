//! Throughput, ETA and percentage arithmetic for progress reports.
//!
//! All three computations guard their divisions: a zero elapsed time yields a
//! zero speed, a zero speed yields a zero ETA, and a zero total length yields
//! a zero percentage, so no report is ever computed with a division by zero.

use vstd::prelude::*;

verus! {

/// Bytes per second moved by this session alone: the session-local byte
/// count divided by the elapsed whole seconds, or 0 while no whole second
/// has elapsed yet.
pub open spec fn speed_spec(session_downloaded: u64, elapsed_secs: u64) -> int {
    if elapsed_secs > 0 {
        session_downloaded as int / elapsed_secs as int
    } else {
        0
    }
}

/// Estimated seconds until completion: the bytes still missing divided by
/// the current speed, or 0 while the speed reads as 0.
pub open spec fn eta_spec(total_length: u64, downloaded_bytes: u64, speed: u64) -> int {
    if speed > 0 {
        (total_length - downloaded_bytes) / speed as int
    } else {
        0
    }
}

/// Share of the total already on disk, in whole percent.
pub open spec fn percentage_spec(downloaded_bytes: u64, total_length: u64) -> int {
    if total_length > 0 {
        downloaded_bytes as int * 100 / total_length as int
    } else {
        0
    }
}

/// Session-local throughput in bytes per second; 0 when `elapsed_secs` is 0.
pub fn download_speed(session_downloaded: u64, elapsed_secs: u64) -> (r: u64)
    ensures
        r == speed_spec(session_downloaded, elapsed_secs),
        elapsed_secs == 0 ==> r == 0,
{
    if elapsed_secs > 0 {
        session_downloaded / elapsed_secs
    } else {
        0
    }
}

/// Estimated seconds to completion; 0 when `speed` is 0.
pub fn eta(total_length: u64, downloaded_bytes: u64, speed: u64) -> (r: u64)
    requires
        downloaded_bytes <= total_length,
    ensures
        r == eta_spec(total_length, downloaded_bytes, speed),
        speed == 0 ==> r == 0,
{
    if speed > 0 {
        (total_length - downloaded_bytes) / speed
    } else {
        0
    }
}

/// Whole-percent share of the total already on disk; at most 100.
pub fn progress_percentage(downloaded_bytes: u64, total_length: u64) -> (r: u64)
    requires
        downloaded_bytes <= total_length,
    ensures
        r == percentage_spec(downloaded_bytes, total_length),
        r <= 100,
{
    if total_length > 0 {
        let wide: u128 = (downloaded_bytes as u128) * 100 / (total_length as u128);
        proof {
            assert(downloaded_bytes as int * 100 / total_length as int <= 100
                && wide == downloaded_bytes as int * 100 / total_length as int)
                by (nonlinear_arith)
                requires
                    downloaded_bytes <= total_length,
                    total_length > 0,
                    wide == (downloaded_bytes as u128) as int * 100 / (total_length as u128) as int,
            ;
        }
        wide as u64
    } else {
        0
    }
}

} // verus!
