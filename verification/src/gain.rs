use vstd::prelude::*;

use crate::error::Error;
use crate::strutil::str_eq;

verus! {

/// The three automatic-gain-control settings the chip knows.
#[derive(Clone, Copy, Debug, PartialEq, Eq, Structural)]
pub enum GainControlMode {
    SlowAttack,
    FastAttack,
    Manual,
}

/// The wire string that stands for each gain control mode.
pub open spec fn mode_str(m: GainControlMode) -> Seq<char> {
    match m {
        GainControlMode::SlowAttack => "slow_attack"@,
        GainControlMode::FastAttack => "fast_attack"@,
        GainControlMode::Manual => "manual"@,
    }
}

impl GainControlMode {
    /// Decodes a wire string into a gain control mode. Exactly the three
    /// known mode names are accepted; anything else is rejected with an
    /// error that carries the offending string.
    pub fn from_str(s: &str) -> (r: Result<GainControlMode, Error>)
        ensures
            r matches Ok(m) ==> s@ == mode_str(m),
            r matches Err(e) ==> {
                &&& forall|m: GainControlMode| s@ != #[trigger] mode_str(m)
                &&& e matches Error::InvalidGainControlMode(x) && x@ == s@
            },
    {
        if str_eq(s, "slow_attack") {
            Ok(GainControlMode::SlowAttack)
        } else if str_eq(s, "fast_attack") {
            Ok(GainControlMode::FastAttack)
        } else if str_eq(s, "manual") {
            Ok(GainControlMode::Manual)
        } else {
            proof {
                assert forall|m: GainControlMode| s@ != #[trigger] mode_str(m) by {
                    match m {
                        GainControlMode::SlowAttack => {},
                        GainControlMode::FastAttack => {},
                        GainControlMode::Manual => {},
                    }
                }
            }
            Err(Error::InvalidGainControlMode(s.to_owned()))
        }
    }

    /// Encodes a gain control mode as its wire string. Total: every mode
    /// has a name, and rendering never fails.
    pub fn as_str(&self) -> (r: &'static str)
        ensures
            r@ == mode_str(*self),
    {
        match self {
            GainControlMode::SlowAttack => "slow_attack",
            GainControlMode::FastAttack => "fast_attack",
            GainControlMode::Manual => "manual",
        }
    }
}

/// Law: the wire strings of the three gain control modes are pairwise
/// distinct, so decoding the rendered name of a mode can only yield that
/// mode back: `from_str` of a string equal to `mode_str(m)` must, by its
/// contract, return `Ok` of a mode with the same wire string, and by this
/// lemma that mode is `m` itself.
pub proof fn lemma_gain_mode_round_trip(a: GainControlMode, b: GainControlMode)
    requires
        mode_str(a) == mode_str(b),
    ensures
        a == b,
{
    reveal_strlit("slow_attack");
    reveal_strlit("fast_attack");
    reveal_strlit("manual");
    assert(mode_str(GainControlMode::SlowAttack)[0] == 's');
    assert(mode_str(GainControlMode::FastAttack)[0] == 'f');
    assert(mode_str(GainControlMode::Manual).len() == 6);
    assert(mode_str(GainControlMode::SlowAttack).len() == 11);
    assert(mode_str(GainControlMode::FastAttack).len() == 11);
}

} // verus!
