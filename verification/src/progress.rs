//! Progress accounting for a chunked reader: how many bytes of the input have
//! been consumed, and the text of the progress line that reports it, with the
//! percentage rendered to two decimal places in pure integer arithmetic.

use vstd::prelude::*;
use vstd::string::StringExecFns;
use vstd::arithmetic::div_mod::{
    lemma_div_decreases, lemma_div_is_ordered, lemma_div_multiples_vanish_fancy,
};
use vstd::arithmetic::mul::lemma_mul_inequality;

verus! {

/// How many bytes the driver reads from the input at a time.
pub const CHUNK_SIZE: usize = 1024 * 1024;

/// The decimal digit character for `d`.
pub open spec fn digit_char(d: int) -> char {
    if d == 0 {
        '0'
    } else if d == 1 {
        '1'
    } else if d == 2 {
        '2'
    } else if d == 3 {
        '3'
    } else if d == 4 {
        '4'
    } else if d == 5 {
        '5'
    } else if d == 6 {
        '6'
    } else if d == 7 {
        '7'
    } else if d == 8 {
        '8'
    } else {
        '9'
    }
}

/// The decimal representation of `n`, most significant digit first, with no
/// leading zero except for `n == 0` itself.
pub open spec fn dec_rep(n: nat) -> Seq<char>
    decreases n,
{
    if n < 10 {
        seq![digit_char(n as int)]
    } else {
        dec_rep(n / 10).push(digit_char((n % 10) as int))
    }
}

/// The percentage `processed / total`, in hundredths of a percent, rounded to
/// the nearest hundredth (half away from zero).
pub open spec fn pct_of(processed: int, total: int) -> int
    recommends
        1 <= total,
{
    (processed * 10000 + total / 2) / total
}

/// The percentage in hundredths rendered with two decimal places, as in
/// `33.33` for `3333`.
pub open spec fn percent_text(pct: int) -> Seq<char>
    recommends
        0 <= pct,
{
    dec_rep((pct / 100) as nat) + seq!['.', digit_char((pct % 100) / 10), digit_char(pct % 10)]
}

/// The progress line reported after a chunk: the byte counts and the rounded
/// percentage.
pub open spec fn progress_line(processed: int, total: int) -> Seq<char>
    recommends
        1 <= total,
        0 <= processed <= total,
{
    "Processed: "@ + dec_rep(processed as nat) + "/"@ + dec_rep(total as nat) + " bytes ("@
        + percent_text(pct_of(processed, total)) + "%)"@
}

/// The one-character string for the digit `d`.
fn digit_str(d: u64) -> (r: &'static str)
    requires
        d < 10,
    ensures
        r@ == seq![digit_char(d as int)],
{
    proof {
        reveal_strlit("0");
        reveal_strlit("1");
        reveal_strlit("2");
        reveal_strlit("3");
        reveal_strlit("4");
        reveal_strlit("5");
        reveal_strlit("6");
        reveal_strlit("7");
        reveal_strlit("8");
        reveal_strlit("9");
    }
    let r: &'static str = if d == 0 {
        "0"
    } else if d == 1 {
        "1"
    } else if d == 2 {
        "2"
    } else if d == 3 {
        "3"
    } else if d == 4 {
        "4"
    } else if d == 5 {
        "5"
    } else if d == 6 {
        "6"
    } else if d == 7 {
        "7"
    } else if d == 8 {
        "8"
    } else {
        "9"
    };
    proof {
        assert(r@ =~= seq![digit_char(d as int)]);
    }
    r
}

/// Renders `n` in decimal.
pub fn u64_to_string(n: u64) -> (s: String)
    ensures
        s@ == dec_rep(n as nat),
    decreases n,
{
    if n < 10 {
        digit_str(n).to_owned()
    } else {
        let mut s = u64_to_string(n / 10);
        s.append(digit_str(n % 10));
        proof {
            assert(s@ =~= dec_rep(n as nat));
        }
        s
    }
}

/// Computes the rounded percentage in hundredths; it never exceeds `10000`
/// while `processed` stays within `total`.
pub fn pct_hundredths(processed: u64, total: u64) -> (r: u64)
    requires
        1 <= total,
        processed <= total,
    ensures
        r == pct_of(processed as int, total as int),
        r <= 10000,
{
    let p: u128 = processed as u128;
    let t: u128 = total as u128;
    proof {
        lemma_mul_inequality(p as int, 0xFFFF_FFFF_FFFF_FFFFint, 10000);
        lemma_mul_inequality(p as int, t as int, 10000);
        lemma_div_decreases(t as int, 2);
        lemma_div_is_ordered(
            p as int * 10000 + t as int / 2,
            t as int * 10000 + t as int / 2,
            t as int,
        );
        lemma_div_multiples_vanish_fancy(10000, t as int / 2, t as int);
    }
    let r: u128 = (p * 10000 + t / 2) / t;
    r as u64
}

/// Renders the percentage with two decimal places.
pub fn format_percent(pct: u64) -> (s: String)
    ensures
        s@ == percent_text(pct as int),
{
    proof {
        reveal_strlit(".");
    }
    let mut s = u64_to_string(pct / 100);
    s.append(".");
    s.append(digit_str((pct % 100) / 10));
    s.append(digit_str(pct % 10));
    proof {
        assert(s@ =~= percent_text(pct as int));
    }
    s
}

/// Renders the full progress line for `processed` bytes out of `total`.
pub fn format_progress(processed: u64, total: u64) -> (s: String)
    requires
        1 <= total,
        processed <= total,
    ensures
        s@ == progress_line(processed as int, total as int),
{
    let pct = pct_hundredths(processed, total);
    let mut s: String = "Processed: ".to_owned();
    s.append(u64_to_string(processed).as_str());
    s.append("/");
    s.append(u64_to_string(total).as_str());
    s.append(" bytes (");
    s.append(format_percent(pct).as_str());
    s.append("%)");
    proof {
        assert(s@ =~= progress_line(processed as int, total as int));
    }
    s
}

/// Counts the bytes a chunked reader has consumed and renders the progress
/// line after each chunk.
pub struct ProgressTracker {
    processed: u64,
    total: u64,
}

impl ProgressTracker {
    /// How many bytes have been recorded so far.
    pub closed spec fn processed(&self) -> u64 {
        self.processed
    }

    /// The size of the whole input, fixed at construction.
    pub closed spec fn total(&self) -> u64 {
        self.total
    }

    /// A fresh tracker for an input of `total` bytes.
    pub fn new(total: u64) -> (t: Self)
        ensures
            t.processed() == 0,
            t.total() == total,
    {
        ProgressTracker { processed: 0, total }
    }

    /// Reads back the recorded byte count.
    pub fn processed_bytes(&self) -> (r: u64)
        ensures
            r == self.processed(),
    {
        self.processed
    }

    /// Reads back the total input size.
    pub fn total_bytes(&self) -> (r: u64)
        ensures
            r == self.total(),
    {
        self.total
    }

    /// Records one chunk of `n` bytes and returns the progress line to
    /// report, with the percentage of the input consumed so far.
    pub fn record_chunk(&mut self, n: u64) -> (line: String)
        requires
            1 <= n,
            old(self).processed() + n <= old(self).total(),
        ensures
            final(self).processed() == old(self).processed() + n,
            final(self).total() == old(self).total(),
            line@ == progress_line(final(self).processed() as int, final(self).total() as int),
    {
        self.processed = self.processed + n;
        format_progress(self.processed, self.total)
    }

    /// Whether the whole input has been recorded.
    pub fn is_complete(&self) -> (r: bool)
        ensures
            r == (self.processed() == self.total()),
    {
        self.processed == self.total
    }
}

/// Once the whole input is consumed, the progress line reports exactly
/// `100.00%`, whatever the input size.
pub proof fn lemma_progress_reaches_100(total: u64)
    requires
        1 <= total,
    ensures
        pct_of(total as int, total as int) == 10000,
        progress_line(total as int, total as int) == "Processed: "@ + dec_rep(total as nat)
            + "/"@ + dec_rep(total as nat) + " bytes ("@ + "100.00"@ + "%)"@,
{
    lemma_div_decreases(total as int, 2);
    lemma_div_multiples_vanish_fancy(10000, total as int / 2, total as int);
    assert(pct_of(total as int, total as int) == 10000);
    reveal_strlit("100.00");
    assert(percent_text(10000) =~= "100.00"@) by {
        reveal_with_fuel(dec_rep, 4);
    }
}

} // verus!
