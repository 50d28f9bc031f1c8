//! Recover the backend's actual listening port from the captured log.
//!
//! The backend announces its address in a startup banner; when a launch
//! times out (or the quick discovery wants a first candidate), the last
//! banner in the log is the best available hint. Log scraping is inherently
//! fragile — the identity endpoint stays the authoritative source of truth —
//! so this is a best-effort fallback only: the known banner prefixes are
//! tried first, then any line that says it is running, listening or serving
//! on the loopback address (matched ASCII case-insensitively), last
//! occurrence winning in every case.

use vstd::prelude::*;
use crate::text::{
    spec_rfind, spec_rfind_from, spec_find_char_from, spec_contains_ci, rfind, rfind_char_before,
    find_char_from, contains_ci, str_chars,
};

verus! {

/// Whether `c` is a decimal digit.
pub open spec fn is_ascii_digit(c: char) -> bool {
    '0' <= c && c <= '9'
}

/// The value of a decimal digit.
pub open spec fn spec_digit_val(c: char) -> u16
    recommends
        is_ascii_digit(c),
{
    ((c as u8) - 48) as u16
}

/// One saturating decimal step: `acc * 10 + d`, capped at the largest port.
pub open spec fn sat_mul10_add(acc: u16, d: u16) -> u16 {
    if acc * 10 + d > 65535 {
        65535
    } else {
        (acc * 10 + d) as u16
    }
}

/// The value of the digit run starting at `i`, accumulated with saturating
/// arithmetic onto `acc`; `acc` itself when no digit stands at `i`.
pub open spec fn spec_digits_value(s: Seq<char>, i: int, acc: u16) -> u16
    decreases s.len() - i,
{
    if i < 0 || i >= s.len() || !is_ascii_digit(s[i]) {
        acc
    } else {
        spec_digits_value(s, i + 1, sat_mul10_add(acc, spec_digit_val(s[i])))
    }
}

/// The port named by the digit run starting at `pos`: its saturating decimal
/// value, but only when positive — a banner naming port 0 is no hint.
pub open spec fn spec_port_after(s: Seq<char>, pos: int) -> Option<u16> {
    if spec_digits_value(s, pos, 0) > 0 {
        Some(spec_digits_value(s, pos, 0))
    } else {
        None
    }
}

/// The digit of a decimal character, `None` for everything else.
fn digit_value(c: char) -> (r: Option<u16>)
    ensures
        match r {
            Some(v) => is_ascii_digit(c) && v == spec_digit_val(c),
            None => !is_ascii_digit(c),
        },
{
    if '0' <= c && c <= '9' {
        Some((c as u8 - 48) as u16)
    } else {
        None
    }
}

/// Read the digit run starting at `start` as a saturating decimal value.
fn digits_value(chars: &Vec<char>, start: usize) -> (v: u16)
    requires
        start <= chars@.len(),
    ensures
        v == spec_digits_value(chars@, start as int, 0),
{
    let mut acc: u16 = 0;
    let mut i: usize = start;
    while i < chars.len()
        invariant
            start <= i <= chars@.len(),
            spec_digits_value(chars@, start as int, 0) == spec_digits_value(
                chars@,
                i as int,
                acc,
            ),
        decreases chars@.len() - i,
    {
        let d = match digit_value(chars[i]) {
            Some(d) => d,
            None => { return acc; },
        };
        let wide: u32 = acc as u32 * 10 + d as u32;
        acc = if wide > 65535 {
            65535
        } else {
            wide as u16
        };
        i = i + 1;
    }
    acc
}

/// Name of the append-only log file, under the temp directory.
pub fn log_file_name() -> (s: &'static str)
    ensures
        s@ == "super_auto_cut_backend.log"@,
{
    "super_auto_cut_backend.log"
}

/// Tag one captured line with the stream it came from, in the form the
/// banner needles above expect: `[stream] line`.
pub fn tag_log_line(stream: &str, line: &str) -> (r: String)
    ensures
        r@ == "["@ + stream@ + "] "@ + line@,
{
    let mut out = "[".to_owned();
    out.append(stream);
    out.append("] ");
    out.append(line);
    proof {
        assert(out@ =~= "["@ + stream@ + "] "@ + line@);
    }
    out
}

/// The loopback address prefix every banner form carries.
pub open spec fn url_prefix() -> Seq<char> {
    "http://127.0.0.1:"@
}

/// The port named after the last occurrence of `pat`, when the run of
/// digits following it is positive.
pub open spec fn spec_try_needle(s: Seq<char>, pat: Seq<char>) -> Option<u16> {
    match spec_rfind(s, pat) {
        Some(p) => spec_port_after(s, p + pat.len()),
        None => None,
    }
}

/// Whether a log line looks like a listening banner: it mentions running,
/// listening or serving, compared ASCII case-insensitively.
pub open spec fn spec_is_banner_line(line: Seq<char>) -> bool {
    ||| spec_contains_ci(line, "running on"@)
    ||| spec_contains_ci(line, "listening on"@)
    ||| spec_contains_ci(line, "serving on"@)
}

/// The generic fallback: take the last loopback address in the log, and
/// accept its port only when the surrounding line is a listening banner.
pub open spec fn spec_fallback_port(s: Seq<char>) -> Option<u16> {
    match spec_rfind(s, url_prefix()) {
        None => None,
        Some(p) => {
            let line_start = match spec_rfind_from(s, seq!['\n'], p - 1) {
                Some(k) => k + 1,
                None => 0,
            };
            let line_end = spec_find_char_from(s, '\n', p);
            if spec_is_banner_line(s.subrange(line_start, line_end)) {
                spec_port_after(s, p + url_prefix().len())
            } else {
                None
            }
        },
    }
}

/// The port the log names: the known banner prefixes first (each at its last
/// occurrence), then the generic listening-banner fallback.
pub open spec fn spec_parse_log_port(s: Seq<char>) -> Option<u16> {
    if spec_try_needle(s, "Uvicorn running on http://127.0.0.1:"@) is Some {
        spec_try_needle(s, "Uvicorn running on http://127.0.0.1:"@)
    } else if spec_try_needle(s, "[stdout] Uvicorn running on http://127.0.0.1:"@) is Some {
        spec_try_needle(s, "[stdout] Uvicorn running on http://127.0.0.1:"@)
    } else if spec_try_needle(s, "[stderr] Uvicorn running on http://127.0.0.1:"@) is Some {
        spec_try_needle(s, "[stderr] Uvicorn running on http://127.0.0.1:"@)
    } else {
        spec_fallback_port(s)
    }
}

/// Try one banner needle against the whole log text.
fn try_needle(chars: &Vec<char>, needle: &Vec<char>) -> (r: Option<u16>)
    requires
        needle@.len() >= 1,
    ensures
        r == spec_try_needle(chars@, needle@),
{
    match rfind(chars, needle) {
        Some(p) => {
            let n = chars.len();
            proof {
                assert(p + needle@.len() <= n);
            }
            let v = digits_value(chars, p + needle.len());
            if v > 0 {
                Some(v)
            } else {
                None
            }
        },
        None => None,
    }
}

/// Recover the last listening port the log reports, if any.
pub fn parse_port_from_log(content: &str) -> (r: Option<u16>)
    ensures
        r == spec_parse_log_port(content@),
{
    let chars = str_chars(content);
    let needle_plain = str_chars("Uvicorn running on http://127.0.0.1:");
    proof {
        reveal_strlit("Uvicorn running on http://127.0.0.1:");
    }
    if let Some(v) = try_needle(&chars, &needle_plain) {
        return Some(v);
    }
    let needle_stdout = str_chars("[stdout] Uvicorn running on http://127.0.0.1:");
    proof {
        reveal_strlit("[stdout] Uvicorn running on http://127.0.0.1:");
    }
    if let Some(v) = try_needle(&chars, &needle_stdout) {
        return Some(v);
    }
    let needle_stderr = str_chars("[stderr] Uvicorn running on http://127.0.0.1:");
    proof {
        reveal_strlit("[stderr] Uvicorn running on http://127.0.0.1:");
    }
    if let Some(v) = try_needle(&chars, &needle_stderr) {
        return Some(v);
    }
    let prefix = str_chars("http://127.0.0.1:");
    proof {
        reveal_strlit("http://127.0.0.1:");
    }
    let p = match rfind(&chars, &prefix) {
        Some(p) => p,
        None => { return None; },
    };
    let line_start = match rfind_char_before(&chars, '\n', p) {
        Some(k) => k + 1,
        None => 0,
    };
    let line_end = find_char_from(&chars, '\n', p);
    proof {
        assert(line_start <= line_end);
    }
    let banner_running = str_chars("running on");
    let banner_listening = str_chars("listening on");
    let banner_serving = str_chars("serving on");
    let is_banner = contains_ci(&chars, line_start, line_end, &banner_running) || contains_ci(
        &chars,
        line_start,
        line_end,
        &banner_listening,
    ) || contains_ci(&chars, line_start, line_end, &banner_serving);
    if is_banner {
        let n = chars.len();
        proof {
            assert(p + prefix@.len() <= n);
        }
        let v = digits_value(&chars, p + prefix.len());
        if v > 0 {
            Some(v)
        } else {
            None
        }
    } else {
        None
    }
}

} // verus!
