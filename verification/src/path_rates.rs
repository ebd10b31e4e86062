use vstd::prelude::*;

use crate::digits::{digit_seq_val, digit_val, is_digit_char, is_digit_seq};
use crate::error::Error;
use crate::freq::Frequency;
use crate::strutil::lit_at;

verus! {

/// The six internal clock rates of the transmit path, as reported by one
/// status line of the hardware stack.
#[derive(Clone, Copy, Debug, PartialEq, Eq, Structural)]
pub struct TxPathRates {
    pub tx_sample_rate: Frequency,
    pub hb1_filter_rate: Frequency,
    pub hb2_filter_rate: Frequency,
    pub hb3_filter_rate: Frequency,
    pub dac_sample_rate: Frequency,
    pub baseband_pll_freq: Frequency,
}

/// The exact status-line shape: six labelled decimal fields, space
/// separated, in this fixed order, nothing before or after.
pub open spec fn path_rates_line(
    d1: Seq<char>,
    d2: Seq<char>,
    d3: Seq<char>,
    d4: Seq<char>,
    d5: Seq<char>,
    d6: Seq<char>,
) -> Seq<char> {
    "BBPLL:"@ + d1 + " DAC:"@ + d2 + " T2:"@ + d3 + " T1:"@ + d4 + " TF:"@ + d5 + " TXSAMP:"@
        + d6
}

/// `s` is a well-formed status line whose six fields carry exactly the
/// rates in `pr` (with the hardware's labels mapped to field names:
/// BBPLL to the PLL, DAC to the DAC, T2/T1/TF to the third, second and
/// first half-band stages, TXSAMP to the final sample rate).
pub open spec fn path_rates_match(s: Seq<char>, pr: TxPathRates) -> bool {
    exists|ds: (Seq<char>, Seq<char>, Seq<char>, Seq<char>, Seq<char>, Seq<char>)|
        {
            &&& s == #[trigger] path_rates_line(ds.0, ds.1, ds.2, ds.3, ds.4, ds.5)
            &&& is_digit_seq(ds.0)
            &&& is_digit_seq(ds.1)
            &&& is_digit_seq(ds.2)
            &&& is_digit_seq(ds.3)
            &&& is_digit_seq(ds.4)
            &&& is_digit_seq(ds.5)
            &&& pr.baseband_pll_freq.hertz == digit_seq_val(ds.0)
            &&& pr.dac_sample_rate.hertz == digit_seq_val(ds.1)
            &&& pr.hb3_filter_rate.hertz == digit_seq_val(ds.2)
            &&& pr.hb2_filter_rate.hertz == digit_seq_val(ds.3)
            &&& pr.hb1_filter_rate.hertz == digit_seq_val(ds.4)
            &&& pr.tx_sample_rate.hertz == digit_seq_val(ds.5)
        }
}

/// `s` parses as a status line at all.
pub open spec fn path_rates_wf(s: Seq<char>) -> bool {
    exists|pr: TxPathRates| #[trigger] path_rates_match(s, pr)
}

/// Where the run of digit characters that starts at `pos` ends.
pub open spec fn digit_run_end(s: Seq<char>, pos: int) -> int
    decreases s.len() - pos,
{
    if 0 <= pos < s.len() && is_digit_char(s[pos]) {
        digit_run_end(s, pos + 1)
    } else {
        pos
    }
}

/// A digit run of known extent pins down `digit_run_end`: if everything
/// from `pos` up to `end` is a digit and `end` sits at the end of the
/// string or on a non-digit, the run ends exactly at `end`.
proof fn lemma_digit_run_end_pinned(s: Seq<char>, pos: int, end: int)
    requires
        0 <= pos <= end <= s.len(),
        forall|i: int| pos <= i < end ==> is_digit_char(#[trigger] s[i]),
        end == s.len() || !is_digit_char(s[end]),
    ensures
        digit_run_end(s, pos) == end,
    decreases end - pos,
{
    if pos < end {
        lemma_digit_run_end_pinned(s, pos + 1, end);
    }
}

/// Reads the run of digits that starts at `pos` and returns its value and
/// its end, or nothing when there is no digit at `pos` or the run's value
/// does not fit an unsigned 64-bit number.
fn scan_number(s: &str, pos: usize) -> (r: Option<(u64, usize)>)
    requires
        pos <= s@.len(),
    ensures
        ({
            let end = digit_run_end(s@, pos as int);
            match r {
                Some(p) => {
                    &&& p.1 == end
                    &&& pos < end <= s@.len()
                    &&& is_digit_seq(s@.subrange(pos as int, end))
                    &&& p.0 == digit_seq_val(s@.subrange(pos as int, end))
                },
                None => end == pos || digit_seq_val(s@.subrange(pos as int, end)) > u64::MAX,
            }
        }),
{
    let n = s.unicode_len();
    let mut i: usize = pos;
    let mut val: u64 = 0;
    let mut overflow = false;
    loop
        invariant_except_break
            pos <= i <= n,
            n == s@.len(),
            forall|j: int| pos <= j < i ==> is_digit_char(#[trigger] s@[j]),
            !overflow ==> val == digit_seq_val(s@.subrange(pos as int, i as int)),
            overflow ==> digit_seq_val(s@.subrange(pos as int, i as int)) > u64::MAX,
        ensures
            pos <= i <= n,
            n == s@.len(),
            forall|j: int| pos <= j < i ==> is_digit_char(#[trigger] s@[j]),
            i == n || !is_digit_char(s@[i as int]),
            !overflow ==> val == digit_seq_val(s@.subrange(pos as int, i as int)),
            overflow ==> digit_seq_val(s@.subrange(pos as int, i as int)) > u64::MAX,
        decreases n - i,
    {
        if i == n {
            break;
        }
        let c = s.get_char(i);
        let u = c as u32;
        if u < 48 || u > 57 {
            break;
        }
        let d = (u - 48) as u64;
        let ghost prefix = s@.subrange(pos as int, i as int);
        let ghost extended = s@.subrange(pos as int, i + 1);
        proof {
            assert(extended.drop_last() =~= prefix);
            assert(extended.last() == s@[i as int]);
            assert(digit_val(s@[i as int]) == d);
            assert(digit_seq_val(extended) == digit_seq_val(prefix) * 10 + d);
        }
        if overflow {
            proof {
                assert(digit_seq_val(prefix) * 10 + d > u64::MAX) by (nonlinear_arith)
                    requires
                        digit_seq_val(prefix) > u64::MAX,
                        d >= 0,
                ;
            }
        } else if val > (u64::MAX - d) / 10 {
            overflow = true;
            proof {
                assert(val * 10 + d > u64::MAX) by (nonlinear_arith)
                    requires
                        val > (u64::MAX - d) / 10,
                        0 <= d < 10,
                ;
            }
        } else {
            proof {
                assert(val * 10 + d <= u64::MAX) by (nonlinear_arith)
                    requires
                        val <= (u64::MAX - d) / 10,
                        0 <= d < 10,
                ;
            }
            val = val * 10 + d;
        }
        i += 1;
    }
    proof {
        lemma_digit_run_end_pinned(s@, pos as int, i as int);
    }
    if i == pos {
        None
    } else if overflow {
        None
    } else {
        Some((val, i))
    }
}

/// A well-formed status line forces everything the parser looks at: each
/// label sits at its computed offset, each digit run extends exactly to
/// the next label or the end, and each run's value is the matching field.
proof fn lemma_wf_forces(
    s: Seq<char>,
    pr: TxPathRates,
    ds: (Seq<char>, Seq<char>, Seq<char>, Seq<char>, Seq<char>, Seq<char>),
)
    requires
        s == path_rates_line(ds.0, ds.1, ds.2, ds.3, ds.4, ds.5),
        is_digit_seq(ds.0),
        is_digit_seq(ds.1),
        is_digit_seq(ds.2),
        is_digit_seq(ds.3),
        is_digit_seq(ds.4),
        is_digit_seq(ds.5),
        pr.baseband_pll_freq.hertz == digit_seq_val(ds.0),
        pr.dac_sample_rate.hertz == digit_seq_val(ds.1),
        pr.hb3_filter_rate.hertz == digit_seq_val(ds.2),
        pr.hb2_filter_rate.hertz == digit_seq_val(ds.3),
        pr.hb1_filter_rate.hertz == digit_seq_val(ds.4),
        pr.tx_sample_rate.hertz == digit_seq_val(ds.5),
    ensures
        forced_witness(s, pr, ds),
{
    reveal_strlit("BBPLL:");
    reveal_strlit(" DAC:");
    reveal_strlit(" T2:");
    reveal_strlit(" T1:");
    reveal_strlit(" TF:");
    reveal_strlit(" TXSAMP:");
    let p1: int = 6;
    let e1 = p1 + ds.0.len() as int;
    let p2 = e1 + 5;
    let e2 = p2 + ds.1.len() as int;
    let p3 = e2 + 4;
    let e3 = p3 + ds.2.len() as int;
    let p4 = e3 + 4;
    let e4 = p4 + ds.3.len() as int;
    let p5 = e4 + 4;
    let e5 = p5 + ds.4.len() as int;
    let p6 = e5 + 8;
    let e6 = p6 + ds.5.len() as int;
    assert(s.len() == e6);
    assert(s.subrange(0, 6) =~= "BBPLL:"@);
    assert(s.subrange(p1, e1) =~= ds.0);
    assert(s.subrange(e1, p2) =~= " DAC:"@);
    assert(s.subrange(p2, e2) =~= ds.1);
    assert(s.subrange(e2, p3) =~= " T2:"@);
    assert(s.subrange(p3, e3) =~= ds.2);
    assert(s.subrange(e3, p4) =~= " T1:"@);
    assert(s.subrange(p4, e4) =~= ds.3);
    assert(s.subrange(e4, p5) =~= " TF:"@);
    assert(s.subrange(p5, e5) =~= ds.4);
    assert(s.subrange(e5, p6) =~= " TXSAMP:"@);
    assert(s.subrange(p6, e6) =~= ds.5);
    assert(!is_digit_char(' '));
    assert forall|i: int| p1 <= i < e1 implies is_digit_char(#[trigger] s[i]) by {
        assert(s[i] == ds.0[i - p1]);
    }
    assert(s[e1] == ' ');
    lemma_digit_run_end_pinned(s, p1, e1);
    assert forall|i: int| p2 <= i < e2 implies is_digit_char(#[trigger] s[i]) by {
        assert(s[i] == ds.1[i - p2]);
    }
    assert(s[e2] == ' ');
    lemma_digit_run_end_pinned(s, p2, e2);
    assert forall|i: int| p3 <= i < e3 implies is_digit_char(#[trigger] s[i]) by {
        assert(s[i] == ds.2[i - p3]);
    }
    assert(s[e3] == ' ');
    lemma_digit_run_end_pinned(s, p3, e3);
    assert forall|i: int| p4 <= i < e4 implies is_digit_char(#[trigger] s[i]) by {
        assert(s[i] == ds.3[i - p4]);
    }
    assert(s[e4] == ' ');
    lemma_digit_run_end_pinned(s, p4, e4);
    assert forall|i: int| p5 <= i < e5 implies is_digit_char(#[trigger] s[i]) by {
        assert(s[i] == ds.4[i - p5]);
    }
    assert(s[e5] == ' ');
    lemma_digit_run_end_pinned(s, p5, e5);
    assert forall|i: int| p6 <= i < e6 implies is_digit_char(#[trigger] s[i]) by {
        assert(s[i] == ds.5[i - p6]);
    }
    lemma_digit_run_end_pinned(s, p6, e6);
}

/// Parses one transmit-path status line. Exactly the strings of the shape
/// `BBPLL:<uint> DAC:<uint> T2:<uint> T1:<uint> TF:<uint> TXSAMP:<uint>`
/// are accepted, the whole input consumed; everything else is rejected
/// with a single generic parse error.
pub fn parse_tx_path_rates(input: &str) -> (r: Result<TxPathRates, Error>)
    ensures
        r matches Ok(pr) ==> path_rates_match(input@, pr),
        r matches Err(e) ==> e == Error::ParsingError && !path_rates_wf(input@),
{
    proof {
        reveal_strlit("BBPLL:");
        reveal_strlit(" DAC:");
        reveal_strlit(" T2:");
        reveal_strlit(" T1:");
        reveal_strlit(" TF:");
        reveal_strlit(" TXSAMP:");
    }
    let n = input.unicode_len();

    if !lit_at(input, 0, "BBPLL:") {
        proof {
            if path_rates_wf(input@) {
                let w = wf_witness(input@);
                assert(false);
            }
        }
        return Err(Error::ParsingError);
    }
    let p1: usize = 6;
    let (v1, e1) = match scan_number(input, p1) {
        Some(p) => p,
        None => {
            proof {
                if path_rates_wf(input@) {
                    let w = wf_witness(input@);
                    assert(false);
                }
            }
            return Err(Error::ParsingError);
        },
    };

    if !lit_at(input, e1, " DAC:") {
        proof {
            if path_rates_wf(input@) {
                let w = wf_witness(input@);
                assert(false);
            }
        }
        return Err(Error::ParsingError);
    }
    let p2: usize = e1 + 5;
    let (v2, e2) = match scan_number(input, p2) {
        Some(p) => p,
        None => {
            proof {
                if path_rates_wf(input@) {
                    let w = wf_witness(input@);
                    assert(false);
                }
            }
            return Err(Error::ParsingError);
        },
    };

    if !lit_at(input, e2, " T2:") {
        proof {
            if path_rates_wf(input@) {
                let w = wf_witness(input@);
                assert(false);
            }
        }
        return Err(Error::ParsingError);
    }
    let p3: usize = e2 + 4;
    let (v3, e3) = match scan_number(input, p3) {
        Some(p) => p,
        None => {
            proof {
                if path_rates_wf(input@) {
                    let w = wf_witness(input@);
                    assert(false);
                }
            }
            return Err(Error::ParsingError);
        },
    };

    if !lit_at(input, e3, " T1:") {
        proof {
            if path_rates_wf(input@) {
                let w = wf_witness(input@);
                assert(false);
            }
        }
        return Err(Error::ParsingError);
    }
    let p4: usize = e3 + 4;
    let (v4, e4) = match scan_number(input, p4) {
        Some(p) => p,
        None => {
            proof {
                if path_rates_wf(input@) {
                    let w = wf_witness(input@);
                    assert(false);
                }
            }
            return Err(Error::ParsingError);
        },
    };

    if !lit_at(input, e4, " TF:") {
        proof {
            if path_rates_wf(input@) {
                let w = wf_witness(input@);
                assert(false);
            }
        }
        return Err(Error::ParsingError);
    }
    let p5: usize = e4 + 4;
    let (v5, e5) = match scan_number(input, p5) {
        Some(p) => p,
        None => {
            proof {
                if path_rates_wf(input@) {
                    let w = wf_witness(input@);
                    assert(false);
                }
            }
            return Err(Error::ParsingError);
        },
    };

    if !lit_at(input, e5, " TXSAMP:") {
        proof {
            if path_rates_wf(input@) {
                let w = wf_witness(input@);
                assert(false);
            }
        }
        return Err(Error::ParsingError);
    }
    let p6: usize = e5 + 8;
    let (v6, e6) = match scan_number(input, p6) {
        Some(p) => p,
        None => {
            proof {
                if path_rates_wf(input@) {
                    let w = wf_witness(input@);
                    assert(false);
                }
            }
            return Err(Error::ParsingError);
        },
    };

    if e6 != n {
        proof {
            if path_rates_wf(input@) {
                let w = wf_witness(input@);
                assert(false);
            }
        }
        return Err(Error::ParsingError);
    }

    let result = TxPathRates {
        tx_sample_rate: Frequency::new_hertz(v6),
        hb1_filter_rate: Frequency::new_hertz(v5),
        hb2_filter_rate: Frequency::new_hertz(v4),
        hb3_filter_rate: Frequency::new_hertz(v3),
        dac_sample_rate: Frequency::new_hertz(v2),
        baseband_pll_freq: Frequency::new_hertz(v1),
    };
    proof {
        let s = input@;
        let ds = (
            s.subrange(p1 as int, e1 as int),
            s.subrange(p2 as int, e2 as int),
            s.subrange(p3 as int, e3 as int),
            s.subrange(p4 as int, e4 as int),
            s.subrange(p5 as int, e5 as int),
            s.subrange(p6 as int, e6 as int),
        );
        assert(s =~= path_rates_line(ds.0, ds.1, ds.2, ds.3, ds.4, ds.5));
        assert(path_rates_match(s, result));
    }
    Ok(result)
}

/// Law: a status line determines its parse outcome: the labels pin every
/// offset, each digit run extends exactly to the next label, and a run's
/// digits pin its value, so two parses of the same line agree on every
/// field.
pub proof fn lemma_path_rates_match_unique(s: Seq<char>, a: TxPathRates, b: TxPathRates)
    requires
        path_rates_match(s, a),
        path_rates_match(s, b),
    ensures
        a == b,
{
    let dsa = choose|ds: (Seq<char>, Seq<char>, Seq<char>, Seq<char>, Seq<char>, Seq<char>)|
        {
            &&& s == #[trigger] path_rates_line(ds.0, ds.1, ds.2, ds.3, ds.4, ds.5)
            &&& is_digit_seq(ds.0)
            &&& is_digit_seq(ds.1)
            &&& is_digit_seq(ds.2)
            &&& is_digit_seq(ds.3)
            &&& is_digit_seq(ds.4)
            &&& is_digit_seq(ds.5)
            &&& a.baseband_pll_freq.hertz == digit_seq_val(ds.0)
            &&& a.dac_sample_rate.hertz == digit_seq_val(ds.1)
            &&& a.hb3_filter_rate.hertz == digit_seq_val(ds.2)
            &&& a.hb2_filter_rate.hertz == digit_seq_val(ds.3)
            &&& a.hb1_filter_rate.hertz == digit_seq_val(ds.4)
            &&& a.tx_sample_rate.hertz == digit_seq_val(ds.5)
        };
    let dsb = choose|ds: (Seq<char>, Seq<char>, Seq<char>, Seq<char>, Seq<char>, Seq<char>)|
        {
            &&& s == #[trigger] path_rates_line(ds.0, ds.1, ds.2, ds.3, ds.4, ds.5)
            &&& is_digit_seq(ds.0)
            &&& is_digit_seq(ds.1)
            &&& is_digit_seq(ds.2)
            &&& is_digit_seq(ds.3)
            &&& is_digit_seq(ds.4)
            &&& is_digit_seq(ds.5)
            &&& b.baseband_pll_freq.hertz == digit_seq_val(ds.0)
            &&& b.dac_sample_rate.hertz == digit_seq_val(ds.1)
            &&& b.hb3_filter_rate.hertz == digit_seq_val(ds.2)
            &&& b.hb2_filter_rate.hertz == digit_seq_val(ds.3)
            &&& b.hb1_filter_rate.hertz == digit_seq_val(ds.4)
            &&& b.tx_sample_rate.hertz == digit_seq_val(ds.5)
        };
    lemma_wf_forces(s, a, dsa);
    lemma_wf_forces(s, b, dsb);
    assert(dsa.0.len() == dsb.0.len());
    assert(dsa.1.len() == dsb.1.len());
    assert(dsa.2.len() == dsb.2.len());
    assert(dsa.3.len() == dsb.3.len());
    assert(dsa.4.len() == dsb.4.len());
    assert(dsa.5.len() == dsb.5.len());
}

/// Extracts, from a well-formed status line, the parse result and the
/// field split, together with every offset they force on the parser; each
/// rejection point of the parser uses this to contradict its local facts.
proof fn wf_witness(s: Seq<char>) -> (w: (
    TxPathRates,
    (Seq<char>, Seq<char>, Seq<char>, Seq<char>, Seq<char>, Seq<char>),
))
    requires
        path_rates_wf(s),
    ensures
        forced_witness(s, w.0, w.1),
{
    let pr = choose|pr: TxPathRates| path_rates_match(s, pr);
    let ds = choose|ds: (Seq<char>, Seq<char>, Seq<char>, Seq<char>, Seq<char>, Seq<char>)|
        {
            &&& s == #[trigger] path_rates_line(ds.0, ds.1, ds.2, ds.3, ds.4, ds.5)
            &&& is_digit_seq(ds.0)
            &&& is_digit_seq(ds.1)
            &&& is_digit_seq(ds.2)
            &&& is_digit_seq(ds.3)
            &&& is_digit_seq(ds.4)
            &&& is_digit_seq(ds.5)
            &&& pr.baseband_pll_freq.hertz == digit_seq_val(ds.0)
            &&& pr.dac_sample_rate.hertz == digit_seq_val(ds.1)
            &&& pr.hb3_filter_rate.hertz == digit_seq_val(ds.2)
            &&& pr.hb2_filter_rate.hertz == digit_seq_val(ds.3)
            &&& pr.hb1_filter_rate.hertz == digit_seq_val(ds.4)
            &&& pr.tx_sample_rate.hertz == digit_seq_val(ds.5)
        };
    lemma_wf_forces(s, pr, ds);
    (pr, ds)
}

/// There are a parse result and a field split that force every offset the
/// parser visits; spelled out so that each rejection point can contradict
/// it with the local facts.
pub open spec fn forced_witness(
    s: Seq<char>,
    pr: TxPathRates,
    ds: (Seq<char>, Seq<char>, Seq<char>, Seq<char>, Seq<char>, Seq<char>),
) -> bool {
    let p1: int = 6;
    let e1 = p1 + ds.0.len();
    let p2 = e1 + 5;
    let e2 = p2 + ds.1.len();
    let p3 = e2 + 4;
    let e3 = p3 + ds.2.len();
    let p4 = e3 + 4;
    let e4 = p4 + ds.3.len();
    let p5 = e4 + 4;
    let e5 = p5 + ds.4.len();
    let p6 = e5 + 8;
    let e6 = p6 + ds.5.len();
    &&& s.len() == e6
    &&& s.subrange(0, 6) == "BBPLL:"@
    &&& digit_run_end(s, p1) == e1
    &&& p1 < e1
    &&& digit_seq_val(s.subrange(p1, e1)) == pr.baseband_pll_freq.hertz
    &&& s.subrange(e1, p2) == " DAC:"@
    &&& digit_run_end(s, p2) == e2
    &&& p2 < e2
    &&& digit_seq_val(s.subrange(p2, e2)) == pr.dac_sample_rate.hertz
    &&& s.subrange(e2, p3) == " T2:"@
    &&& digit_run_end(s, p3) == e3
    &&& p3 < e3
    &&& digit_seq_val(s.subrange(p3, e3)) == pr.hb3_filter_rate.hertz
    &&& s.subrange(e3, p4) == " T1:"@
    &&& digit_run_end(s, p4) == e4
    &&& p4 < e4
    &&& digit_seq_val(s.subrange(p4, e4)) == pr.hb2_filter_rate.hertz
    &&& s.subrange(e4, p5) == " TF:"@
    &&& digit_run_end(s, p5) == e5
    &&& p5 < e5
    &&& digit_seq_val(s.subrange(p5, e5)) == pr.hb1_filter_rate.hertz
    &&& s.subrange(e5, p6) == " TXSAMP:"@
    &&& digit_run_end(s, p6) == e6
    &&& p6 < e6
    &&& digit_seq_val(s.subrange(p6, e6)) == pr.tx_sample_rate.hertz
}

} // verus!
