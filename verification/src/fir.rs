use vstd::prelude::*;

use crate::digits::{append_i16, append_u64, dec_digits, digit_char_of, signed_dec_digits};

verus! {

/// One entry of the transmit-filter table: a decimation/interpolation
/// factor paired with the FIR tap coefficients that go with it.
pub struct FirConfig {
    pub decimation_factor: u32,
    pub fir_coefficients: Vec<i16>,
}

impl FirConfig {
    pub fn new(decimation_factor: u32, fir_coefficients: Vec<i16>) -> (r: FirConfig)
        ensures
            r.decimation_factor == decimation_factor,
            r.fir_coefficients == fir_coefficients,
    {
        FirConfig { decimation_factor, fir_coefficients }
    }
}

/// Highest rate served by the 128-tap, decimate-by-four table.
pub const MAX_RATE_FIR_128_4_HZ: u64 = 20_000_000;

/// Highest rate served by the 128-tap, decimate-by-two table.
pub const MAX_RATE_FIR_128_2_HZ: u64 = 40_000_000;

/// Highest rate served by the 96-tap table; above it the 64-tap table is used.
pub const MAX_RATE_FIR_96_2_HZ: u64 = 53_333_333;

pub open spec fn fir_128_4_taps() -> Seq<i16> {
    seq![-15i16, -27i16, -23i16, -6i16, 17i16, 33i16, 31i16, 9i16, -23i16, -47i16, -45i16, -13i16, 34i16, 69i16, 67i16, 21i16, -49i16, -102i16, -99i16, -32i16, 69i16, 146i16, 143i16, 48i16, -96i16, -204i16, -200i16, -69i16, 129i16, 278i16, 275i16, 97i16, -170i16, -372i16, -371i16, -135i16, 222i16, 494i16, 497i16, 187i16, -288i16, -654i16, -665i16, -258i16, 376i16, 875i16, 902i16, 363i16, -500i16, -1201i16, -1265i16, -530i16, 699i16, 1748i16, 1906i16, 845i16, -1089i16, -2922i16, -3424i16, -1697i16, 2326i16, 7714i16, 12821i16, 15921i16, 15921i16, 12821i16, 7714i16, 2326i16, -1697i16, -3424i16, -2922i16, -1089i16, 845i16, 1906i16, 1748i16, 699i16, -530i16, -1265i16, -1201i16, -500i16, 363i16, 902i16, 875i16, 376i16, -258i16, -665i16, -654i16, -288i16, 187i16, 497i16, 494i16, 222i16, -135i16, -371i16, -372i16, -170i16, 97i16, 275i16, 278i16, 129i16, -69i16, -200i16, -204i16, -96i16, 48i16, 143i16, 146i16, 69i16, -32i16, -99i16, -102i16, -49i16, 21i16, 67i16, 69i16, 34i16, -13i16, -45i16, -47i16, -23i16, 9i16, 31i16, 33i16, 17i16, -6i16, -23i16, -27i16, -15i16]
}

/// The 128-tap table with decimation factor 4.
pub fn fir_128_4() -> (r: FirConfig)
    ensures
        r.decimation_factor == 4,
        r.fir_coefficients@ == fir_128_4_taps(),
{
    let coefficients: Vec<i16> = vec![-15, -27, -23, -6, 17, 33, 31, 9, -23, -47, -45, -13, 34, 69, 67, 21, -49, -102, -99, -32, 69, 146, 143, 48, -96, -204, -200, -69, 129, 278, 275, 97, -170, -372, -371, -135, 222, 494, 497, 187, -288, -654, -665, -258, 376, 875, 902, 363, -500, -1201, -1265, -530, 699, 1748, 1906, 845, -1089, -2922, -3424, -1697, 2326, 7714, 12821, 15921, 15921, 12821, 7714, 2326, -1697, -3424, -2922, -1089, 845, 1906, 1748, 699, -530, -1265, -1201, -500, 363, 902, 875, 376, -258, -665, -654, -288, 187, 497, 494, 222, -135, -371, -372, -170, 97, 275, 278, 129, -69, -200, -204, -96, 48, 143, 146, 69, -32, -99, -102, -49, 21, 67, 69, 34, -13, -45, -47, -23, 9, 31, 33, 17, -6, -23, -27, -15];
    proof {
        assert(coefficients@ =~= fir_128_4_taps());
    }
    FirConfig::new(4, coefficients)
}

pub open spec fn fir_128_2_taps() -> Seq<i16> {
    seq![0i16, 0i16, 1i16, 0i16, -2i16, 0i16, 3i16, 0i16, -5i16, 0i16, 8i16, 0i16, -11i16, 0i16, 17i16, 0i16, -24i16, 0i16, 33i16, 0i16, -45i16, 0i16, 61i16, 0i16, -80i16, 0i16, 104i16, 0i16, -134i16, 0i16, 169i16, 0i16, -213i16, 0i16, 264i16, 0i16, -327i16, 0i16, 401i16, 0i16, -489i16, 0i16, 595i16, 0i16, -724i16, 0i16, 880i16, 0i16, -1075i16, 0i16, 1323i16, 0i16, -1652i16, 0i16, 2114i16, 0i16, -2819i16, 0i16, 4056i16, 0i16, -6883i16, 0i16, 20837i16, 32767i16, 20837i16, 0i16, -6883i16, 0i16, 4056i16, 0i16, -2819i16, 0i16, 2114i16, 0i16, -1652i16, 0i16, 1323i16, 0i16, -1075i16, 0i16, 880i16, 0i16, -724i16, 0i16, 595i16, 0i16, -489i16, 0i16, 401i16, 0i16, -327i16, 0i16, 264i16, 0i16, -213i16, 0i16, 169i16, 0i16, -134i16, 0i16, 104i16, 0i16, -80i16, 0i16, 61i16, 0i16, -45i16, 0i16, 33i16, 0i16, -24i16, 0i16, 17i16, 0i16, -11i16, 0i16, 8i16, 0i16, -5i16, 0i16, 3i16, 0i16, -2i16, 0i16, 1i16, 0i16, 0i16, 0i16]
}

/// The 128-tap table with decimation factor 2.
pub fn fir_128_2() -> (r: FirConfig)
    ensures
        r.decimation_factor == 2,
        r.fir_coefficients@ == fir_128_2_taps(),
{
    let coefficients: Vec<i16> = vec![0, 0, 1, 0, -2, 0, 3, 0, -5, 0, 8, 0, -11, 0, 17, 0, -24, 0, 33, 0, -45, 0, 61, 0, -80, 0, 104, 0, -134, 0, 169, 0, -213, 0, 264, 0, -327, 0, 401, 0, -489, 0, 595, 0, -724, 0, 880, 0, -1075, 0, 1323, 0, -1652, 0, 2114, 0, -2819, 0, 4056, 0, -6883, 0, 20837, 32767, 20837, 0, -6883, 0, 4056, 0, -2819, 0, 2114, 0, -1652, 0, 1323, 0, -1075, 0, 880, 0, -724, 0, 595, 0, -489, 0, 401, 0, -327, 0, 264, 0, -213, 0, 169, 0, -134, 0, 104, 0, -80, 0, 61, 0, -45, 0, 33, 0, -24, 0, 17, 0, -11, 0, 8, 0, -5, 0, 3, 0, -2, 0, 1, 0, 0, 0];
    proof {
        assert(coefficients@ =~= fir_128_2_taps());
    }
    FirConfig::new(2, coefficients)
}

pub open spec fn fir_96_2_taps() -> Seq<i16> {
    seq![-4i16, 0i16, 8i16, 0i16, -14i16, 0i16, 23i16, 0i16, -36i16, 0i16, 52i16, 0i16, -75i16, 0i16, 104i16, 0i16, -140i16, 0i16, 186i16, 0i16, -243i16, 0i16, 314i16, 0i16, -400i16, 0i16, 505i16, 0i16, -634i16, 0i16, 793i16, 0i16, -993i16, 0i16, 1247i16, 0i16, -1585i16, 0i16, 2056i16, 0i16, -2773i16, 0i16, 4022i16, 0i16, -6862i16, 0i16, 20830i16, 32767i16, 20830i16, 0i16, -6862i16, 0i16, 4022i16, 0i16, -2773i16, 0i16, 2056i16, 0i16, -1585i16, 0i16, 1247i16, 0i16, -993i16, 0i16, 793i16, 0i16, -634i16, 0i16, 505i16, 0i16, -400i16, 0i16, 314i16, 0i16, -243i16, 0i16, 186i16, 0i16, -140i16, 0i16, 104i16, 0i16, -75i16, 0i16, 52i16, 0i16, -36i16, 0i16, 23i16, 0i16, -14i16, 0i16, 8i16, 0i16, -4i16, 0i16]
}

/// The 96-tap table with decimation factor 2.
pub fn fir_96_2() -> (r: FirConfig)
    ensures
        r.decimation_factor == 2,
        r.fir_coefficients@ == fir_96_2_taps(),
{
    let coefficients: Vec<i16> = vec![-4, 0, 8, 0, -14, 0, 23, 0, -36, 0, 52, 0, -75, 0, 104, 0, -140, 0, 186, 0, -243, 0, 314, 0, -400, 0, 505, 0, -634, 0, 793, 0, -993, 0, 1247, 0, -1585, 0, 2056, 0, -2773, 0, 4022, 0, -6862, 0, 20830, 32767, 20830, 0, -6862, 0, 4022, 0, -2773, 0, 2056, 0, -1585, 0, 1247, 0, -993, 0, 793, 0, -634, 0, 505, 0, -400, 0, 314, 0, -243, 0, 186, 0, -140, 0, 104, 0, -75, 0, 52, 0, -36, 0, 23, 0, -14, 0, 8, 0, -4, 0];
    proof {
        assert(coefficients@ =~= fir_96_2_taps());
    }
    FirConfig::new(2, coefficients)
}

pub open spec fn fir_64_2_taps() -> Seq<i16> {
    seq![-58i16, 0i16, 83i16, 0i16, -127i16, 0i16, 185i16, 0i16, -262i16, 0i16, 361i16, 0i16, -488i16, 0i16, 648i16, 0i16, -853i16, 0i16, 1117i16, 0i16, -1466i16, 0i16, 1954i16, 0i16, -2689i16, 0i16, 3960i16, 0i16, -6825i16, 0i16, 20818i16, 32767i16, 20818i16, 0i16, -6825i16, 0i16, 3960i16, 0i16, -2689i16, 0i16, 1954i16, 0i16, -1466i16, 0i16, 1117i16, 0i16, -853i16, 0i16, 648i16, 0i16, -488i16, 0i16, 361i16, 0i16, -262i16, 0i16, 185i16, 0i16, -127i16, 0i16, 83i16, 0i16, -58i16, 0i16]
}

/// The 64-tap table with decimation factor 2.
pub fn fir_64_2() -> (r: FirConfig)
    ensures
        r.decimation_factor == 2,
        r.fir_coefficients@ == fir_64_2_taps(),
{
    let coefficients: Vec<i16> = vec![-58, 0, 83, 0, -127, 0, 185, 0, -262, 0, 361, 0, -488, 0, 648, 0, -853, 0, 1117, 0, -1466, 0, 1954, 0, -2689, 0, 3960, 0, -6825, 0, 20818, 32767, 20818, 0, -6825, 0, 3960, 0, -2689, 0, 1954, 0, -1466, 0, 1117, 0, -853, 0, 648, 0, -488, 0, 361, 0, -262, 0, 185, 0, -127, 0, 83, 0, -58, 0];
    proof {
        assert(coefficients@ =~= fir_64_2_taps());
    }
    FirConfig::new(2, coefficients)
}
/// The decimation factor of the table that serves `rate`.
pub open spec fn selected_decimation(rate: u64) -> u32 {
    if rate <= MAX_RATE_FIR_128_4_HZ {
        4
    } else {
        2
    }
}

/// The tap coefficients of the table that serves `rate`: an ascending
/// ladder of inclusive upper bounds, total over all rates.
pub open spec fn selected_taps(rate: u64) -> Seq<i16> {
    if rate <= MAX_RATE_FIR_128_4_HZ {
        fir_128_4_taps()
    } else if rate <= MAX_RATE_FIR_128_2_HZ {
        fir_128_2_taps()
    } else if rate <= MAX_RATE_FIR_96_2_HZ {
        fir_96_2_taps()
    } else {
        fir_64_2_taps()
    }
}

/// Picks the filter table whose band contains `rate`.
pub fn select_fir_config(rate: u64) -> (r: FirConfig)
    ensures
        r.decimation_factor == selected_decimation(rate),
        r.fir_coefficients@ == selected_taps(rate),
{
    if rate <= MAX_RATE_FIR_128_4_HZ {
        fir_128_4()
    } else if rate <= MAX_RATE_FIR_128_2_HZ {
        fir_128_2()
    } else if rate <= MAX_RATE_FIR_96_2_HZ {
        fir_96_2()
    } else {
        fir_64_2()
    }
}

/// Law: every rate in the band above 20 MHz up to and including 40 MHz
/// selects the 128-tap, decimate-by-two table.
pub proof fn lemma_band_128_2(rate: u64)
    requires
        MAX_RATE_FIR_128_4_HZ < rate <= MAX_RATE_FIR_128_2_HZ,
    ensures
        selected_taps(rate) == fir_128_2_taps(),
        selected_decimation(rate) == 2,
{
}

/// One line of the filter block: the tap value, a slash, the same tap
/// value again, and a newline.
pub open spec fn tap_line(t: i16) -> Seq<char> {
    signed_dec_digits(t as int) + seq!['/'] + signed_dec_digits(t as int) + seq!['\n']
}

/// The tap lines of a whole coefficient table, in order.
pub open spec fn tap_lines(taps: Seq<i16>) -> Seq<char>
    decreases taps.len(),
{
    if taps.len() == 0 {
        Seq::empty()
    } else {
        tap_lines(taps.drop_last()) + tap_line(taps.last())
    }
}

/// The filter configuration block as the hardware stack expects it:
/// a receive header line, a transmit header line, one line per tap, and
/// a trailing blank line.
pub open spec fn fir_block(dec: u32, taps: Seq<i16>) -> Seq<char> {
    "RX 3 GAIN -6 DEC "@ + dec_digits(dec as nat) + "\n"@ + "TX 3 GAIN 0 INT "@ + dec_digits(
        dec as nat,
    ) + "\n"@ + tap_lines(taps) + "\n"@
}

/// Renders a filter configuration as the exact text block the hardware
/// stack expects.
pub fn render_fir_config(config: &FirConfig) -> (r: String)
    ensures
        r@ == fir_block(config.decimation_factor, config.fir_coefficients@),
{
    let ghost dec = config.decimation_factor;
    let ghost taps = config.fir_coefficients@;
    let mut s = String::new();
    s.append("RX 3 GAIN -6 DEC ");
    append_u64(&mut s, config.decimation_factor as u64);
    s.append("\n");
    s.append("TX 3 GAIN 0 INT ");
    append_u64(&mut s, config.decimation_factor as u64);
    s.append("\n");
    let ghost header = "RX 3 GAIN -6 DEC "@ + dec_digits(dec as nat) + "\n"@
        + "TX 3 GAIN 0 INT "@ + dec_digits(dec as nat) + "\n"@;
    proof {
        assert(s@ =~= header + tap_lines(taps.take(0)));
    }
    let n = config.fir_coefficients.len();
    let mut i: usize = 0;
    while i < n
        invariant
            i <= n,
            n == taps.len(),
            taps == config.fir_coefficients@,
            s@ == header + tap_lines(taps.take(i as int)),
        decreases n - i,
    {
        let tap = config.fir_coefficients[i];
        append_i16(&mut s, tap);
        s.append("/");
        append_i16(&mut s, tap);
        s.append("\n");
        proof {
            reveal_strlit("/");
            reveal_strlit("\n");
            assert(taps.take(i + 1).drop_last() =~= taps.take(i as int));
            assert("/"@ =~= seq!['/']);
            assert("\n"@ =~= seq!['\n']);
            assert(s@ =~= header + tap_lines(taps.take(i + 1)));
        }
        i += 1;
    }
    s.append("\n");
    proof {
        assert(taps.take(n as int) =~= taps);
        assert(s@ =~= fir_block(dec, taps));
    }
    s
}


/// Every table in the ladder has at least 64 and at most 128 taps.
pub proof fn lemma_selected_taps_len(rate: u64)
    ensures
        64 <= selected_taps(rate).len() <= 128,
{
    assert(fir_128_4_taps().len() == 128);
    assert(fir_128_2_taps().len() == 128);
    assert(fir_96_2_taps().len() == 96);
    assert(fir_64_2_taps().len() == 64);
}


/// How many newline characters a piece of the block holds.
pub open spec fn newline_count(s: Seq<char>) -> nat
    decreases s.len(),
{
    if s.len() == 0 {
        0
    } else {
        newline_count(s.drop_last()) + (if s.last() == '\n' {
            1nat
        } else {
            0nat
        })
    }
}

proof fn lemma_newline_count_concat(a: Seq<char>, b: Seq<char>)
    ensures
        newline_count(a + b) == newline_count(a) + newline_count(b),
    decreases b.len(),
{
    if b.len() == 0 {
        assert(a + b =~= a);
    } else {
        lemma_newline_count_concat(a, b.drop_last());
        assert((a + b).drop_last() =~= a + b.drop_last());
        assert((a + b).last() == b.last());
    }
}

proof fn lemma_newline_count_single(c: char)
    ensures
        newline_count(seq![c]) == (if c == '\n' {
            1nat
        } else {
            0nat
        }),
{
    let s = seq![c];
    assert(s.len() == 1);
    assert(newline_count(Seq::<char>::empty()) == 0);
    assert(s.drop_last() =~= Seq::<char>::empty());
    assert(s.last() == c);
    assert(newline_count(s) == newline_count(s.drop_last()) + (if s.last() == '\n' {
        1nat
    } else {
        0nat
    }));
}

proof fn lemma_no_newline_count(s: Seq<char>)
    requires
        forall|i: int| 0 <= i < s.len() ==> s[i] != '\n',
    ensures
        newline_count(s) == 0,
    decreases s.len(),
{
    if s.len() > 0 {
        lemma_no_newline_count(s.drop_last());
    }
}

proof fn lemma_dec_digits_no_newline(n: nat)
    ensures
        newline_count(dec_digits(n)) == 0,
        forall|i: int| 0 <= i < dec_digits(n).len() ==> dec_digits(n)[i] != '\n',
    decreases n,
{
    if n < 10 {
        lemma_newline_count_single(digit_char_of(n));
    } else {
        lemma_dec_digits_no_newline(n / 10);
        lemma_newline_count_single(digit_char_of(n % 10));
        lemma_newline_count_concat(dec_digits(n / 10), seq![digit_char_of(n % 10)]);
        assert forall|i: int| 0 <= i < dec_digits(n).len() implies dec_digits(n)[i] != '\n' by {
            if i < dec_digits(n / 10).len() {
                assert(dec_digits(n)[i] == dec_digits(n / 10)[i]);
            }
        }
    }
}

proof fn lemma_signed_no_newline(n: int)
    ensures
        newline_count(signed_dec_digits(n)) == 0,
    decreases n,
{
    if n < 0 {
        lemma_dec_digits_no_newline((-n) as nat);
        lemma_newline_count_single('-');
        lemma_newline_count_concat(seq!['-'], dec_digits((-n) as nat));
    } else {
        lemma_dec_digits_no_newline(n as nat);
    }
}

proof fn lemma_tap_line_newlines(t: i16)
    ensures
        newline_count(tap_line(t)) == 1,
{
    let sd = signed_dec_digits(t as int);
    lemma_signed_no_newline(t as int);
    lemma_newline_count_single('/');
    lemma_newline_count_single('\n');
    lemma_newline_count_concat(sd, seq!['/']);
    lemma_newline_count_concat(sd + seq!['/'], sd);
    lemma_newline_count_concat(sd + seq!['/'] + sd, seq!['\n']);
}

proof fn lemma_tap_lines_newlines(taps: Seq<i16>)
    ensures
        newline_count(tap_lines(taps)) == taps.len(),
    decreases taps.len(),
{
    if taps.len() > 0 {
        lemma_tap_lines_newlines(taps.drop_last());
        lemma_tap_line_newlines(taps.last());
        lemma_newline_count_concat(tap_lines(taps.drop_last()), tap_line(taps.last()));
    }
}

/// Law: the rendered block is made of newline-terminated lines: one
/// receive header, one transmit header, one line per tap, and a trailing
/// blank line, so it carries exactly `taps.len() + 3` newlines and its
/// last two characters are both newlines (the blank line).
pub proof fn lemma_fir_block_line_count(dec: u32, taps: Seq<i16>)
    ensures
        newline_count(fir_block(dec, taps)) == taps.len() + 3,
        fir_block(dec, taps).len() >= 2,
        fir_block(dec, taps).last() == '\n',
{
    reveal_strlit("RX 3 GAIN -6 DEC ");
    reveal_strlit("TX 3 GAIN 0 INT ");
    reveal_strlit("\n");
    let h1 = "RX 3 GAIN -6 DEC "@;
    let h2 = "TX 3 GAIN 0 INT "@;
    let nl = "\n"@;
    let d = dec_digits(dec as nat);
    lemma_no_newline_count(h1);
    lemma_no_newline_count(h2);
    lemma_dec_digits_no_newline(dec as nat);
    assert(newline_count(nl) == 1) by {
        assert(nl.len() == 1);
        assert(nl.last() == '\n');
        assert(newline_count(Seq::<char>::empty()) == 0);
        assert(nl.drop_last() =~= Seq::<char>::empty());
        assert(newline_count(nl) == newline_count(nl.drop_last()) + 1nat);
    }
    lemma_tap_lines_newlines(taps);
    lemma_newline_count_concat(h1, d);
    lemma_newline_count_concat(h1 + d, nl);
    lemma_newline_count_concat(h1 + d + nl, h2);
    lemma_newline_count_concat(h1 + d + nl + h2, d);
    lemma_newline_count_concat(h1 + d + nl + h2 + d, nl);
    lemma_newline_count_concat(h1 + d + nl + h2 + d + nl, tap_lines(taps));
    lemma_newline_count_concat(h1 + d + nl + h2 + d + nl + tap_lines(taps), nl);
}

} // verus!
