//! The text of status output: the lead of a timestamped message and the
//! separator rule. Styling and writing to the terminal are left to the caller.
use vstd::prelude::*;
use vstd::string::StringExecFns;

verus! {

/// The lead of a status message stamped with `stamp`: `[ stamp ] :: `.
pub open spec fn lead(stamp: Seq<char>) -> Seq<char> {
    "[ "@ + stamp + " ] :: "@
}

/// A separator rule of `width` dashes.
pub open spec fn rule(width: nat) -> Seq<char> {
    Seq::new(width, |i: int| '-')
}

/// The lead that goes before a status message stamped with `stamp`.
pub fn lead_text(stamp: &str) -> (r: String)
    ensures
        r@ == lead(stamp@),
{
    let mut s = String::from_str("[ ");
    s.append(stamp);
    s.append(" ] :: ");
    s
}

/// A separator rule as wide as the terminal: `width` dashes.
pub fn rule_text(width: usize) -> (r: String)
    ensures
        r@ == rule(width as nat),
{
    let mut s = String::new();
    let mut i: usize = 0;
    while i < width
        invariant
            i <= width,
            s@ == rule(i as nat),
        decreases width - i,
    {
        s.append("-");
        proof {
            reveal_strlit("-");
            assert(s@ =~= rule((i + 1) as nat));
        }
        i = i + 1;
    }
    s
}

} // verus!
