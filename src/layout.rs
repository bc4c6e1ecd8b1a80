//! Where the log lives on disk: one active file, and numbered, compressed
//! archives in a fixed directory.

use vstd::prelude::*;

verus! {

/// Path of the active log file.
pub const ACTIVE_LOG_PATH: &'static str = "plc.log";

/// Directory holding the archives.
pub const ARCHIVE_DIR: &'static str = "history";

/// One decimal digit.
pub open spec fn digit_text(d: nat) -> Seq<char> {
    if d == 0 {
        "0"@
    } else if d == 1 {
        "1"@
    } else if d == 2 {
        "2"@
    } else if d == 3 {
        "3"@
    } else if d == 4 {
        "4"@
    } else if d == 5 {
        "5"@
    } else if d == 6 {
        "6"@
    } else if d == 7 {
        "7"@
    } else if d == 8 {
        "8"@
    } else {
        "9"@
    }
}

/// `n` written in decimal, without leading zeros.
pub open spec fn decimal(n: nat) -> Seq<char>
    decreases n,
{
    if n < 10 {
        digit_text(n)
    } else {
        decimal(n / 10) + digit_text(n % 10)
    }
}

/// Path of archive `index`.
pub open spec fn archive_path_text(index: nat) -> Seq<char> {
    "history/plclog_"@ + decimal(index) + ".gz"@
}

fn digit(d: u32) -> (r: &'static str)
    requires
        d < 10,
    ensures
        r@ == digit_text(d as nat),
{
    if d == 0 {
        "0"
    } else if d == 1 {
        "1"
    } else if d == 2 {
        "2"
    } else if d == 3 {
        "3"
    } else if d == 4 {
        "4"
    } else if d == 5 {
        "5"
    } else if d == 6 {
        "6"
    } else if d == 7 {
        "7"
    } else if d == 8 {
        "8"
    } else {
        "9"
    }
}

fn append_decimal(text: &mut String, n: u32)
    ensures
        final(text)@ == old(text)@ + decimal(n as nat),
    decreases n,
{
    if n >= 10 {
        append_decimal(text, n / 10);
    }
    text.append(digit(n % 10));
}

/// The path of archive `index`; index `ARCHIVE_BASE` is the most recent.
pub fn archive_path(index: u32) -> (r: String)
    ensures
        r@ == archive_path_text(index as nat),
{
    let mut path = String::from_str("history/plclog_");
    append_decimal(&mut path, index);
    path.append(".gz");
    path
}

} // verus!
