use vstd::prelude::*;

use vstd::string::StringExecFns;

use crate::stats::Stats;
use crate::workload::ascii_to_string;

verus! {

/// The ASCII digit for `d`, which is below ten.
pub open spec fn digit_byte(d: nat) -> u8 {
    (48 + d) as u8
}

/// The decimal text of `n`, most significant digit first, without leading
/// zeros (zero itself is one digit).
pub open spec fn decimal(n: nat) -> Seq<u8>
    decreases n,
{
    if n < 10 {
        seq![digit_byte(n)]
    } else {
        decimal(n / 10) + seq![digit_byte(n % 10)]
    }
}

/// One exported row: the three durations of one trial index, separated by
/// commas and ended by a newline.
pub open spec fn csv_row(x: u128, y: u128, z: u128) -> Seq<u8> {
    decimal(x as nat) + seq![44u8] + decimal(y as nat) + seq![44u8] + decimal(z as nat) + seq![
        10u8,
    ]
}

/// The rows for the first `n` trial indices of three series.
pub open spec fn csv_text(a: Seq<u128>, b: Seq<u128>, c: Seq<u128>, n: nat) -> Seq<u8>
    decreases n,
{
    if n == 0 {
        Seq::empty()
    } else {
        csv_text(a, b, c, (n - 1) as nat) + csv_row(a[n - 1], b[n - 1], c[n - 1])
    }
}

/// Why three series cannot be exported side by side.
#[derive(Clone, Copy, Debug, PartialEq, Eq, Structural)]
pub enum ExportError {
    /// The series do not hold the same number of trials.
    LengthMismatch,
}

/// Appends the decimal text of `n` to `out`.
pub fn push_decimal(out: &mut Vec<u8>, n: u128)
    ensures
        final(out)@ == old(out)@ + decimal(n as nat),
    decreases n,
{
    if n >= 10 {
        push_decimal(out, n / 10);
    }
    out.push(48u8 + (n % 10) as u8);
    proof {
        assert(final(out)@ =~= old(out)@ + decimal(n as nat));
    }
}

/// Lays out three series of durations as delimited text: row `i` holds the
/// `i`-th trial of `string`, `rc` and `arc`, in that order. The series must
/// be of one length.
pub fn csv_rows(string: &Vec<u128>, rc: &Vec<u128>, arc: &Vec<u128>) -> (r: Result<
    Vec<u8>,
    ExportError,
>)
    ensures
        r is Ok <==> (string@.len() == rc@.len() && rc@.len() == arc@.len()),
        r matches Ok(bytes) ==> bytes@ == csv_text(string@, rc@, arc@, string@.len()),
{
    let n = string.len();
    if rc.len() != n || arc.len() != n {
        return Err(ExportError::LengthMismatch);
    }
    let mut out: Vec<u8> = Vec::new();
    let mut i: usize = 0;
    while i < n
        invariant
            n == string@.len(),
            n == rc@.len(),
            n == arc@.len(),
            i <= n,
            out@ == csv_text(string@, rc@, arc@, i as nat),
        decreases n - i,
    {
        push_decimal(&mut out, string[i]);
        out.push(44u8);
        push_decimal(&mut out, rc[i]);
        out.push(44u8);
        push_decimal(&mut out, arc[i]);
        out.push(10u8);
        proof {
            assert(out@ =~= csv_text(string@, rc@, arc@, (i + 1) as nat));
        }
        i = i + 1;
    }
    Ok(out)
}

/// The decimal text of `n` as characters.
pub open spec fn decimal_chars(n: nat) -> Seq<char> {
    decimal(n).map_values(|b: u8| b as char)
}

/// Every byte of a decimal text is an ASCII digit.
pub proof fn lemma_decimal_digits(n: nat)
    ensures
        forall|i: int| 0 <= i < decimal(n).len() ==> 48 <= #[trigger] decimal(n)[i] <= 57,
    decreases n,
{
    if n >= 10 {
        lemma_decimal_digits(n / 10);
        let head = decimal(n / 10);
        assert forall|i: int| 0 <= i < decimal(n).len() implies 48 <= #[trigger] decimal(n)[i]
            <= 57 by {
            if i < head.len() {
                assert(decimal(n)[i] == head[i]);
            }
        }
    }
}

/// The decimal text of `n`.
pub fn decimal_string(n: u128) -> (s: String)
    ensures
        s@ == decimal_chars(n as nat),
{
    let mut bytes: Vec<u8> = Vec::new();
    push_decimal(&mut bytes, n);
    proof {
        lemma_decimal_digits(n as nat);
        assert(bytes@ == decimal(n as nat));
    }
    let s = ascii_to_string(bytes);
    proof {
        assert(s@ =~= decimal_chars(n as nat));
    }
    s
}

/// The one-line report of a run's summary.
pub open spec fn stats_text(st: Stats) -> Seq<char> {
    "mean: \t"@ + decimal_chars(st.mean as nat) + ", \tmin: \t"@ + decimal_chars(st.min as nat)
        + ", \tmax: \t"@ + decimal_chars(st.max as nat) + "\t"@
}

impl Stats {
    /// The summary as one line of text: mean, then minimum, then maximum,
    /// each after its label and a tab.
    pub fn describe(&self) -> (s: String)
        ensures
            s@ == stats_text(*self),
    {
        let mut s = String::from_str("mean: \t");
        s.append(decimal_string(self.mean).as_str());
        s.append(", \tmin: \t");
        s.append(decimal_string(self.min).as_str());
        s.append(", \tmax: \t");
        s.append(decimal_string(self.max).as_str());
        s.append("\t");
        s
    }
}

} // verus!
