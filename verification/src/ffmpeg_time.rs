//! Parsing of the remuxer's progress clock, `HOURS:MM:SS.MICROSECONDS`,
//! into a whole number of seconds.
use crate::strutil::all_digits;
use crate::strutil::dec_val;
use crate::strutil::find_char;
use crate::strutil::lemma_find_char;
use crate::strutil::lemma_find_char_found;
use crate::strutil::lemma_run_end_found;
use crate::strutil::parse_u64_digits;
use crate::strutil::run_end;
use crate::strutil::split_char;
use crate::strutil::split_on_char;
use crate::strutil::str_find_char;
use crate::strutil::str_len;
use vstd::prelude::*;
use vstd::string::StrSliceExecFns;

verus! {

/// An error that may occur while parsing a progress clock.
#[derive(Debug, PartialEq, Eq, Clone)]
pub struct ParseFfmpegTimeError {
    /// The text that is not a progress clock
    pub text: String,
}

/// The minus-sign character class, as a predicate value.
pub open spec fn minus_pred() -> spec_fn(char) -> bool {
    |c: char| c == '-'
}

/// `s` with every leading minus sign removed.
pub open spec fn strip_leading_minus(s: Seq<char>) -> Seq<char> {
    s.skip(run_end(s, 0, minus_pred()))
}

/// Whether `p` is a non-empty digit run whose value fits in a `u64`.
pub open spec fn u64_digits(p: Seq<char>) -> bool {
    p.len() > 0 && all_digits(p) && dec_val(p) <= u64::MAX
}

/// Whether `s` (after stripping minus signs) reads as a progress clock:
/// `HOURS:MM:SS.MICROSECONDS`, three colon-separated fields, the last split
/// once at a point.
pub open spec fn ffmpeg_time_valid(s: Seq<char>) -> bool {
    let t = strip_leading_minus(s);
    let parts = split_char(t, ':');
    &&& parts.len() == 3
    &&& u64_digits(parts[0])
    &&& u64_digits(parts[1])
    &&& {
        let sp = parts[2];
        let i = find_char(sp, '.');
        &&& i < sp.len()
        &&& u64_digits(sp.take(i))
        &&& u64_digits(sp.skip(i + 1))
    }
}

/// The whole seconds a valid progress clock names.
pub open spec fn ffmpeg_time_secs(s: Seq<char>) -> nat {
    let t = strip_leading_minus(s);
    let parts = split_char(t, ':');
    let sp = parts[2];
    dec_val(parts[0]) * 3600 + dec_val(parts[1]) * 60 + dec_val(sp.take(find_char(sp, '.')))
}

/// Parses a progress-clock field: a non-empty digit run fitting a `u64`.
fn parse_time_field(s: &str) -> (r: Option<u64>)
    ensures
        match r {
            Some(v) => u64_digits(s@) && v == dec_val(s@),
            None => !u64_digits(s@),
        },
{
    let n = str_len(s);
    proof {
        assert(s@.subrange(0, n as int) =~= s@);
    }
    if n == 0 {
        return None;
    }
    if !crate::decimal::check_all_digits(s, 0, n) {
        return None;
    }
    parse_u64_digits(s, 0, n)
}

/// Parse a progress clock, returning the time in whole seconds.
///
/// Format: `00:00:03.970612`, `HOURS:MM:SS.MICROSECONDS`; leading minus
/// signs are ignored. The result is `HOURS * 3600 + MM * 60 + SS` exactly
/// when the text matches that shape and the total fits in a `u64`.
pub fn parse_ffmpeg_time(time: &str) -> (r: Result<u64, ParseFfmpegTimeError>)
    ensures
        match r {
            Ok(v) => ffmpeg_time_valid(time@) && ffmpeg_time_secs(time@) <= u64::MAX && v
                == ffmpeg_time_secs(time@),
            Err(_) => !(ffmpeg_time_valid(time@) && ffmpeg_time_secs(time@) <= u64::MAX),
        },
{
    let n = str_len(time);
    // Strip every leading minus sign.
    let mut start: usize = 0;
    while start < n && crate::strutil::char_at(time, start) == '-'
        invariant
            n == time@.len(),
            0 <= start <= n,
            forall|j: int| 0 <= j < start ==> time@[j] == '-',
        decreases n - start,
    {
        start += 1;
    }
    proof {
        lemma_run_end_found(time@, 0, minus_pred(), start as int);
    }
    let stripped = crate::strutil::substring(time, start, n);
    proof {
        assert(stripped@ =~= strip_leading_minus(time@));
    }
    let parts = split_on_char(stripped.as_str(), ':');
    let ghost pv = split_char(stripped@, ':');
    if parts.len() != 3 {
        return Err(ParseFfmpegTimeError { text: time.to_owned() });
    }
    let hours = match parse_time_field(parts[0].as_str()) {
        Some(v) => v,
        None => {
            return Err(ParseFfmpegTimeError { text: time.to_owned() });
        },
    };
    let minutes = match parse_time_field(parts[1].as_str()) {
        Some(v) => v,
        None => {
            return Err(ParseFfmpegTimeError { text: time.to_owned() });
        },
    };
    let sp = &parts[2];
    let sn = str_len(sp.as_str());
    let dot = str_find_char(sp.as_str(), 0, '.');
    proof {
        assert(sp@.skip(0) =~= sp@);
    }
    if dot >= sn {
        return Err(ParseFfmpegTimeError { text: time.to_owned() });
    }
    let sec_text = crate::strutil::substring(sp.as_str(), 0, dot);
    let micro_text = crate::strutil::substring(sp.as_str(), dot + 1, sn);
    proof {
        assert(sec_text@ =~= sp@.take(dot as int));
        assert(micro_text@ =~= sp@.skip(dot + 1));
    }
    let seconds = match parse_time_field(sec_text.as_str()) {
        Some(v) => v,
        None => {
            return Err(ParseFfmpegTimeError { text: time.to_owned() });
        },
    };
    match parse_time_field(micro_text.as_str()) {
        Some(_micro) => {},
        None => {
            return Err(ParseFfmpegTimeError { text: time.to_owned() });
        },
    }
    let hs = match hours.checked_mul(3600) {
        Some(v) => v,
        None => {
            return Err(ParseFfmpegTimeError { text: time.to_owned() });
        },
    };
    let ms = match minutes.checked_mul(60) {
        Some(v) => v,
        None => {
            return Err(ParseFfmpegTimeError { text: time.to_owned() });
        },
    };
    let hm = match hs.checked_add(ms) {
        Some(v) => v,
        None => {
            return Err(ParseFfmpegTimeError { text: time.to_owned() });
        },
    };
    match hm.checked_add(seconds) {
        Some(v) => Ok(v),
        None => Err(ParseFfmpegTimeError { text: time.to_owned() }),
    }
}

} // verus!
