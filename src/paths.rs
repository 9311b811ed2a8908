//! Locations under the configuration directory, and the name of a session
//! log, which is made from the local time at which the session starts.

use vstd::prelude::*;
use crate::text::{chars_of, string_from_chars};

verus! {

/// `name`, a relative path component, appended to `base` with a `/`
/// separator where `base` does not already end in one.
pub open spec fn join(base: Seq<char>, name: Seq<char>) -> Seq<char> {
    if base.len() == 0 || base.last() == '/' {
        base + name
    } else {
        base + seq!['/'] + name
    }
}

/// The configuration directory under the home directory `home`.
pub open spec fn weave_dir(home: Seq<char>) -> Seq<char> {
    join(home, ".weave"@)
}

/// The session log directory under the home directory `home`.
pub open spec fn logs_dir(home: Seq<char>) -> Seq<char> {
    join(weave_dir(home), "logs"@)
}

/// Appends `name`, a relative path component, to `base`, with a `/`
/// separator where `base` does not already end in one.
pub fn join_path(base: &str, name: &str) -> (r: String)
    ensures
        r@ == join(base@, name@),
{
    let b = chars_of(base);
    let mut r = String::from_str(base);
    if b.len() > 0 && b[b.len() - 1] != '/' {
        r.append("/");
        proof {
            reveal_strlit("/");
        }
    }
    r.append(name);
    proof {
        assert(r@ =~= join(base@, name@));
    }
    r
}

/// The configuration directory: `.weave` under the home directory.
pub fn get_weave_directory(home: &str) -> (r: String)
    ensures
        r@ == weave_dir(home@),
{
    join_path(home, ".weave")
}

/// The session log directory: `logs` under the configuration directory.
pub fn get_weave_logs_path(home: &str) -> (r: String)
    ensures
        r@ == logs_dir(home@),
{
    let dir = get_weave_directory(home);
    join_path(dir.as_str(), "logs")
}

/// A local date and time, to the second.
#[derive(Clone, Copy, Debug, PartialEq, Eq, Structural)]
pub struct LocalTime {
    pub year: i32,
    pub month: u32,
    pub day: u32,
    pub hour: u32,
    pub minute: u32,
    pub second: u32,
}

impl LocalTime {
    /// Every field lies in its calendar range.
    pub open spec fn wf(&self) -> bool {
        &&& 1 <= self.month <= 12
        &&& 1 <= self.day <= 31
        &&& self.hour < 24
        &&& self.minute < 60
        &&& self.second < 60
    }
}

/// The character of a decimal digit.
pub open spec fn digit_char(d: nat) -> char {
    seq!['0', '1', '2', '3', '4', '5', '6', '7', '8', '9'][d as int]
}

/// The decimal digits of `n`, without leading zeros.
pub open spec fn decimal(n: nat) -> Seq<char>
    decreases n,
{
    if n < 10 {
        seq![digit_char(n)]
    } else {
        decimal(n / 10).push(digit_char(n % 10))
    }
}

/// The decimal digits of `n`, zero-padded to at least two.
pub open spec fn padded2(n: nat) -> Seq<char> {
    if n < 10 {
        seq!['0'] + decimal(n)
    } else {
        decimal(n)
    }
}

/// The decimal digits of `n`, zero-padded to at least four.
pub open spec fn padded4(n: nat) -> Seq<char> {
    if n < 10 {
        seq!['0', '0', '0'] + decimal(n)
    } else if n < 100 {
        seq!['0', '0'] + decimal(n)
    } else if n < 1000 {
        seq!['0'] + decimal(n)
    } else {
        decimal(n)
    }
}

/// The year: four digits within 0 to 9999, else signed.
pub open spec fn year_text(y: int) -> Seq<char> {
    if 0 <= y <= 9999 {
        padded4(y as nat)
    } else if y > 9999 {
        seq!['+'] + decimal(y as nat)
    } else {
        seq!['-'] + padded4((-y) as nat)
    }
}

/// The time as `YYYY-MM-DD-HHMMSS`.
pub open spec fn stamp(t: LocalTime) -> Seq<char> {
    year_text(t.year as int) + seq!['-'] + padded2(t.month as nat) + seq!['-'] + padded2(
        t.day as nat,
    ) + seq!['-'] + padded2(t.hour as nat) + padded2(t.minute as nat) + padded2(t.second as nat)
}

/// The file name of the log of a session started at `t`.
pub open spec fn log_name(t: LocalTime) -> Seq<char> {
    stamp(t) + ".log"@
}

fn digit(d: u32) -> (r: char)
    requires
        d < 10,
    ensures
        r == digit_char(d as nat),
{
    let ds = vec!['0', '1', '2', '3', '4', '5', '6', '7', '8', '9'];
    assert(ds@ =~= seq!['0', '1', '2', '3', '4', '5', '6', '7', '8', '9']);
    ds[d as usize]
}

fn push_decimal(v: &mut Vec<char>, n: u32)
    ensures
        final(v)@ == old(v)@ + decimal(n as nat),
    decreases n,
{
    if n < 10 {
        v.push(digit(n));
    } else {
        push_decimal(v, n / 10);
        v.push(digit(n % 10));
        proof {
            assert(final(v)@ =~= old(v)@ + decimal(n as nat));
        }
    }
}

fn push_padded2(v: &mut Vec<char>, n: u32)
    ensures
        final(v)@ == old(v)@ + padded2(n as nat),
{
    if n < 10 {
        v.push('0');
    }
    push_decimal(v, n);
    proof {
        assert(final(v)@ =~= old(v)@ + padded2(n as nat));
    }
}

fn push_padded4(v: &mut Vec<char>, n: u32)
    ensures
        final(v)@ == old(v)@ + padded4(n as nat),
{
    if n < 10 {
        v.push('0');
        v.push('0');
        v.push('0');
    } else if n < 100 {
        v.push('0');
        v.push('0');
    } else if n < 1000 {
        v.push('0');
    }
    push_decimal(v, n);
    proof {
        assert(final(v)@ =~= old(v)@ + padded4(n as nat));
    }
}

/// The time as `YYYY-MM-DD-HHMMSS`.
pub fn timestamp_text(t: &LocalTime) -> (r: String)
    ensures
        r@ == stamp(*t),
{
    let mut v: Vec<char> = Vec::new();
    if 0 <= t.year && t.year <= 9999 {
        push_padded4(&mut v, t.year as u32);
    } else if t.year > 9999 {
        v.push('+');
        push_decimal(&mut v, t.year as u32);
    } else {
        v.push('-');
        let magnitude: u32 = if t.year == i32::MIN {
            2147483648u32
        } else {
            (-t.year) as u32
        };
        push_padded4(&mut v, magnitude);
    }
    let ghost y = v@;
    assert(y =~= year_text(t.year as int));
    v.push('-');
    push_padded2(&mut v, t.month);
    v.push('-');
    push_padded2(&mut v, t.day);
    v.push('-');
    push_padded2(&mut v, t.hour);
    push_padded2(&mut v, t.minute);
    push_padded2(&mut v, t.second);
    assert(v@ =~= stamp(*t));
    string_from_chars(&v)
}

/// The path of the log of a session started at `t`, in the directory `dir`.
pub fn log_file_path(dir: &str, t: &LocalTime) -> (r: String)
    ensures
        r@ == join(dir@, log_name(*t)),
{
    let mut name = timestamp_text(t);
    name.append(".log");
    join_path(dir, name.as_str())
}

} // verus!
