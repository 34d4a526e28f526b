//! Per-host politeness throttle arithmetic: stamp file names and how long to wait.

use vstd::prelude::*;

use crate::domain::crate_name::is_ascii_alnum;
use crate::retry::{digits_value, is_digit, lemma_digits_value_prefix_grows};
use crate::text::{chars_of, push_chars, push_str, string_of, trim, trim_chars};

verus! {

/// Cache subdirectory holding per-host rate-limit stamps and locks.
pub const RATE_LIMIT_DIR_NAME: &'static str = "rate-limit";

/// A host name character kept as is in a file name.
pub open spec fn host_file_char(c: char) -> bool {
    is_ascii_alnum(c) || c == '.' || c == '-'
}

/// Host name made safe for a file name: other characters become `_`; an empty
/// host becomes `unknown`.
pub open spec fn safe_host(host: Seq<char>) -> Seq<char> {
    if host.len() == 0 {
        "unknown"@
    } else {
        Seq::new(host.len(), |i: int| if host_file_char(host[i]) { host[i] } else { '_' })
    }
}

/// Host name made safe for a file name.
pub fn safe_host_name(host: &str) -> (r: String)
    ensures
        r@ == safe_host(host@),
{
    let v = chars_of(host);
    if v.len() == 0 {
        return "unknown".to_owned();
    }
    let mut out: Vec<char> = Vec::new();
    let mut i: usize = 0;
    while i < v.len()
        invariant
            0 <= i <= v@.len(),
            v@ == host@,
            v@.len() > 0,
            out@ == safe_host(v@).take(i as int),
        decreases v@.len() - i,
    {
        let c = v[i];
        let keep = crate::domain::crate_name::is_ascii_alnum_exec(c) || c == '.' || c == '-';
        if keep {
            out.push(c);
        } else {
            out.push('_');
        }
        i = i + 1;
        proof {
            assert(out@ =~= safe_host(v@).take(i as int));
        }
    }
    proof {
        assert(safe_host(v@).take(i as int) =~= safe_host(v@));
    }
    string_of(out.as_slice())
}

/// File name of a host's stamp: `{safe_host}.stamp`.
pub fn stamp_file_name(host: &str) -> (r: String)
    ensures
        r@ == safe_host(host@) + ".stamp"@,
{
    let mut s = safe_host_name(host);
    push_str(&mut s, ".stamp");
    s
}

/// File name of a host's exclusive lock: `{safe_host}.lock`.
pub fn lock_file_name(host: &str) -> (r: String)
    ensures
        r@ == safe_host(host@) + ".lock"@,
{
    let mut s = safe_host_name(host);
    push_str(&mut s, ".lock");
    s
}

/// Remaining wait after the last hit `elapsed_ms` ago, for a delay of `delay_ms`.
pub open spec fn remaining_wait(elapsed_ms: u64, delay_ms: u64) -> Option<u64> {
    if elapsed_ms < delay_ms { Some((delay_ms - elapsed_ms) as u64) } else { None }
}

/// In-process throttle: wait out what is left of the delay since this host's last hit.
pub fn in_process_wait(elapsed_ms: u64, delay_ms: u64) -> (r: Option<u64>)
    ensures
        r == remaining_wait(elapsed_ms, delay_ms),
{
    if elapsed_ms < delay_ms { Some(delay_ms - elapsed_ms) } else { None }
}

/// Remaining wait given a stamp file's text and the current time: `None` when
/// the stamp is not a number; the whole delay when the stamp lies in the
/// future (clock went backwards); else what is left of the delay.
pub open spec fn stamp_wait_of(text: Seq<char>, now_ms: u64, delay_ms: u64) -> Option<u64> {
    let t = trim(text);
    if t.len() == 0 || !(forall|i: int| 0 <= i < t.len() ==> is_digit(#[trigger] t[i])) {
        None
    } else if digits_value(t) > u128::MAX {
        None
    } else if now_ms < digits_value(t) {
        Some(delay_ms)
    } else if now_ms - digits_value(t) < delay_ms {
        Some((delay_ms - (now_ms - digits_value(t))) as u64)
    } else {
        None
    }
}

/// Remaining wait from a stamp file's text at time `now_ms`.
pub fn stamp_wait(text: &str, now_ms: u64, delay_ms: u64) -> (r: Option<u64>)
    ensures
        r == stamp_wait_of(text@, now_ms, delay_ms),
{
    let v = chars_of(text);
    let t = trim_chars(v.as_slice());
    if t.len() == 0 {
        return None;
    }
    let mut value: u128 = 0;
    let mut i: usize = 0;
    while i < t.len()
        invariant
            0 <= i <= t@.len(),
            t@ == trim(text@),
            t@.len() > 0,
            forall|k: int| 0 <= k < i ==> is_digit(#[trigger] t@[k]),
            value == digits_value(t@.take(i as int)),
        decreases t@.len() - i,
    {
        let c = t[i];
        if !('0' <= c && c <= '9') {
            proof {
                assert(!is_digit(t@[i as int]));
            }
            return None;
        }
        proof {
            assert(t@.take(i + 1).drop_last() == t@.take(i as int));
            assert(t@.take(i + 1).last() == c);
        }
        let d = (c as u32 - '0' as u32) as u128;
        let next = match value.checked_mul(10) {
            Some(x) => x.checked_add(d),
            None => None,
        };
        match next {
            Some(x) => {
                value = x;
            },
            None => {
                proof {
                    lemma_digits_value_prefix_grows(t@, i as int + 1);
                }
                return None;
            },
        }
        i = i + 1;
    }
    proof {
        assert(t@.take(i as int) == t@);
    }
    let now = now_ms as u128;
    if now < value {
        Some(delay_ms)
    } else if now - value < delay_ms as u128 {
        Some((delay_ms as u128 - (now - value)) as u64)
    } else {
        None
    }
}

} // verus!
