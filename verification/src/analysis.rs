use vstd::prelude::*;

use crate::severity::Severity;

verus! {

/// The positions, in increasing order, of the first `n` severities of `s` that are at
/// least `min`.
pub open spec fn kept_positions(s: Seq<Severity>, min: Severity, n: nat) -> Seq<usize>
    decreases n,
{
    if n == 0 {
        Seq::empty()
    } else {
        let before = kept_positions(s, min, (n - 1) as nat);
        if s[n - 1].spec_at_least(min) {
            before.push((n - 1) as usize)
        } else {
            before
        }
    }
}

/// The positions of the findings, given by their severities, that pass a minimum
/// severity filter, in their original order.
pub fn select_at_or_above(severities: &Vec<Severity>, min: &Severity) -> (kept: Vec<usize>)
    ensures
        kept@ == kept_positions(severities@, *min, severities@.len()),
{
    let mut kept: Vec<usize> = Vec::new();
    let n = severities.len();
    let mut i: usize = 0;
    while i < n
        invariant
            n == severities@.len(),
            i <= n,
            kept@ == kept_positions(severities@, *min, i as nat),
        decreases n - i,
    {
        if severities[i].at_least(min) {
            kept.push(i);
        }
        i = i + 1;
    }
    kept
}

/// Every kept position holds a severity that passes the filter, and every position
/// whose severity passes is kept, with positions in increasing order.
pub proof fn lemma_kept_positions(s: Seq<Severity>, min: Severity, n: nat)
    requires
        n <= s.len(),
        s.len() <= usize::MAX,
    ensures
        forall|k: int|
            0 <= k < kept_positions(s, min, n).len() ==> {
                let p = #[trigger] kept_positions(s, min, n)[k];
                p < n && s[p as int].spec_at_least(min)
            },
        forall|k: int, l: int|
            0 <= k < l < kept_positions(s, min, n).len() ==> #[trigger] kept_positions(
                s,
                min,
                n,
            )[k] < #[trigger] kept_positions(s, min, n)[l],
        forall|p: int|
            0 <= p < n && #[trigger] s[p].spec_at_least(min) ==> kept_positions(
                s,
                min,
                n,
            ).contains(p as usize),
    decreases n,
{
    if n > 0 {
        lemma_kept_positions(s, min, (n - 1) as nat);
        let before = kept_positions(s, min, (n - 1) as nat);
        if s[n - 1].spec_at_least(min) {
            let after = before.push((n - 1) as usize);
            assert forall|p: int| 0 <= p < n && #[trigger] s[p].spec_at_least(min) implies after.contains(
                p as usize,
            ) by {
                if p < n - 1 {
                    let k = choose|k: int| 0 <= k < before.len() && before[k] == p as usize;
                    assert(after[k] == p as usize);
                } else {
                    assert(after[before.len() as int] == p as usize);
                }
            }
        }
    }
}

/// The time an analysis took, in milliseconds, from its start and end in seconds.
pub fn analysis_duration_ms(start_secs: u64, end_secs: u64) -> (ms: u64)
    requires
        start_secs <= end_secs,
        (end_secs - start_secs) * 1000 <= u64::MAX,
    ensures
        ms == (end_secs - start_secs) * 1000,
{
    (end_secs - start_secs) * 1000
}

} // verus!
