//! Structured errors: a stable kind used by callers to dispatch, plus a
//! human-readable message, and a verified decimal formatter used to embed
//! HTTP status codes in messages.

use vstd::prelude::*;

verus! {

/// Stable identifier of every failure the core can report.
#[derive(Clone, Copy, Debug, PartialEq, Eq, Structural)]
pub enum ErrorKind {
    /// `start_recording` while a session is already recording.
    AlreadyRecording,
    /// `stop_recording` with no active session.
    NotRecording,
    /// A previous session was still finalizing when a new start was requested.
    PreviousSessionNotDone,
    /// The bounded wait for the capture worker to finalize ran out.
    FinalizeTimeout,
    /// No input device could be opened.
    DeviceUnavailable,
    /// The input device negotiated a sample format other than 16-bit int or
    /// 32-bit float.
    UnsupportedSampleFormat,
    /// The recorded audio file could not be read back at transcription time.
    FileReadError,
    /// No usable API key was found in the config or the environment.
    MissingCredential,
    /// The provider rejected the credentials.
    AuthFailed,
    /// Quota, balance or rate limits were exhausted.
    QuotaExceeded,
    /// The requested model does not exist at the provider.
    ModelNotFound,
    /// The provider routed the request to a region-restricted backend.
    RegionRestricted,
    /// A transport-level failure (timeout or connection failure).
    NetworkFailed,
    /// A well-formed response that carried no usable text.
    NoContentReturned,
    /// Any other provider-reported failure.
    Unknown,
}

/// A classified failure: a stable kind plus a human-readable message.
#[derive(Clone, Debug)]
pub struct SttError {
    pub kind: ErrorKind,
    pub message: String,
}

impl SttError {
    /// Packs a kind and a ready-made message.
    pub fn new(kind: ErrorKind, message: String) -> (r: SttError)
        ensures
            r.kind == kind,
            r.message == message,
    {
        SttError { kind, message }
    }

    /// Packs a kind and a fixed message.
    pub fn of_str(kind: ErrorKind, message: &str) -> (r: SttError)
        ensures
            r.kind == kind,
            r.message@ == message@,
    {
        SttError { kind, message: message.to_owned() }
    }
}

/// The decimal digit character for a value in `0 ..= 9`.
pub open spec fn dec_digit(d: int) -> char {
    ((48 + d) as u8) as char
}

/// The decimal representation of a non-negative integer, most significant
/// digit first.
pub open spec fn dec_str(n: int) -> Seq<char>
    decreases n,
{
    if n < 0 {
        Seq::empty()
    } else if n < 10 {
        seq![dec_digit(n)]
    } else {
        dec_str(n / 10).push(dec_digit(n % 10))
    }
}

/// Formats a `u32` in decimal.
pub fn u32_to_dec(n: u32) -> (s: String)
    ensures
        s@ == dec_str(n as int),
{
    let mut digits: Vec<char> = Vec::new();
    let mut m: u32 = n;
    while m >= 10
        invariant
            dec_str(n as int) == dec_str(m as int) + digits@.reverse(),
        decreases m,
    {
        let d: u32 = m % 10;
        proof {
            assert(dec_str(m as int) == dec_str(m as int / 10).push(dec_digit(m as int % 10)));
            assert(dec_str(m as int / 10).push(dec_digit(m as int % 10)) + digits@.reverse()
                =~= dec_str(m as int / 10) + digits@.push(dec_digit(m as int % 10)).reverse());
        }
        digits.push(((48 + d) as u8) as char);
        m = m / 10;
    }
    proof {
        assert(dec_str(m as int) == seq![dec_digit(m as int)]);
        assert(seq![dec_digit(m as int)] + digits@.reverse() =~= digits@.push(
            dec_digit(m as int),
        ).reverse());
    }
    digits.push(((48 + m % 10) as u8) as char);
    proof {
        assert(dec_digit(m as int) == dec_digit(m as int % 10));
    }
    let mut out = String::new();
    let k = digits.len();
    let mut i: usize = 0;
    while i < k
        invariant
            k == digits@.len(),
            i <= k,
            out@ == digits@.reverse().take(i as int),
        decreases k - i,
    {
        out.push(digits[k - 1 - i]);
        proof {
            assert(digits@.reverse()[i as int] == digits@[k - 1 - i]);
            assert(digits@.reverse().take(i as int).push(digits@.reverse()[i as int])
                =~= digits@.reverse().take(i + 1));
        }
        i += 1;
    }
    proof {
        assert(digits@.reverse().take(k as int) =~= digits@.reverse());
    }
    out
}


/// Formats a `u64` in decimal.
pub fn u64_to_dec(n: u64) -> (s: String)
    ensures
        s@ == dec_str(n as int),
{
    let mut digits: Vec<char> = Vec::new();
    let mut m: u64 = n;
    while m >= 10
        invariant
            dec_str(n as int) == dec_str(m as int) + digits@.reverse(),
        decreases m,
    {
        let d: u64 = m % 10;
        proof {
            assert(dec_str(m as int) == dec_str(m as int / 10).push(dec_digit(m as int % 10)));
            assert(dec_str(m as int / 10).push(dec_digit(m as int % 10)) + digits@.reverse()
                =~= dec_str(m as int / 10) + digits@.push(dec_digit(m as int % 10)).reverse());
        }
        digits.push(((48 + d) as u8) as char);
        m = m / 10;
    }
    proof {
        assert(dec_str(m as int) == seq![dec_digit(m as int)]);
        assert(seq![dec_digit(m as int)] + digits@.reverse() =~= digits@.push(
            dec_digit(m as int),
        ).reverse());
    }
    digits.push(((48 + m % 10) as u8) as char);
    proof {
        assert(dec_digit(m as int) == dec_digit(m as int % 10));
    }
    let mut out = String::new();
    let k = digits.len();
    let mut i: usize = 0;
    while i < k
        invariant
            k == digits@.len(),
            i <= k,
            out@ == digits@.reverse().take(i as int),
        decreases k - i,
    {
        out.push(digits[k - 1 - i]);
        proof {
            assert(digits@.reverse()[i as int] == digits@[k - 1 - i]);
            assert(digits@.reverse().take(i as int).push(digits@.reverse()[i as int])
                =~= digits@.reverse().take(i + 1));
        }
        i += 1;
    }
    proof {
        assert(digits@.reverse().take(k as int) =~= digits@.reverse());
    }
    out
}
} // verus!
