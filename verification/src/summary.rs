use vstd::prelude::*;

use std::collections::HashMap;

use crate::severity::Severity;

verus! {

broadcast use vstd::std_specs::hash::group_hash_axioms;

/// The key under which the findings of severity `s` are counted.
pub open spec fn severity_key(s: Severity) -> u8 {
    s.spec_rank() as u8
}

/// How many findings of severity `s` the counting map `m` records.
pub open spec fn count_in(m: Map<u8, usize>, s: Severity) -> nat {
    if m.contains_key(severity_key(s)) {
        m[severity_key(s)] as nat
    } else {
        0
    }
}

/// The counting map `m` after one more finding of each severity in `s`, in order.
pub open spec fn tally(m: Map<u8, usize>, s: Seq<Severity>) -> Map<u8, usize>
    decreases s.len(),
{
    if s.len() == 0 {
        m
    } else {
        let before = tally(m, s.drop_last());
        before.insert(severity_key(s.last()), (count_in(before, s.last()) + 1) as usize)
    }
}

/// How many times `t` occurs in `s`.
pub open spec fn occurrences(s: Seq<Severity>, t: Severity) -> nat
    decreases s.len(),
{
    if s.len() == 0 {
        0
    } else {
        occurrences(s.drop_last(), t) + if s.last() == t {
            1nat
        } else {
            0nat
        }
    }
}

/// Counts of analysed files and of findings, from which the exit code is decided.
#[derive(Debug)]
pub struct AnalysisSummary {
    pub total_files: usize,
    pub successful_files: usize,
    pub failed_files: usize,
    /// Number of findings per severity, keyed by the severity's rank.
    pub findings_by_severity: HashMap<u8, usize>,
    pub total_findings: usize,
}

impl AnalysisSummary {
    /// How many findings of severity `s` were recorded.
    pub open spec fn count(self, s: Severity) -> nat {
        count_in(self.findings_by_severity@, s)
    }

    /// The counts per severity add up to the number of findings, and only
    /// severities are counted.
    pub open spec fn is_consistent(self) -> bool {
        &&& forall|k: u8| #[trigger] self.findings_by_severity@.contains_key(k) ==> k < 5
        &&& self.total_findings == self.count(Severity::Info) + self.count(Severity::Low)
            + self.count(Severity::Medium) + self.count(Severity::High) + self.count(
            Severity::Critical,
        )
    }

    /// Whether the summary reports a finding of severity `s` or more serious (one of
    /// the severities at least `s` has a count). For `Info` this is whether any
    /// finding was recorded at all.
    pub open spec fn spec_has_findings_at_or_above(self, s: Severity) -> bool {
        if s == Severity::Info {
            self.total_findings > 0
        } else {
            ||| (Severity::Low.spec_at_least(s) && self.count(Severity::Low) > 0)
            ||| (Severity::Medium.spec_at_least(s) && self.count(Severity::Medium) > 0)
            ||| (Severity::High.spec_at_least(s) && self.count(Severity::High) > 0)
            ||| self.count(Severity::Critical) > 0
        }
    }

    /// Number of findings of severity `severity`.
    pub fn findings_at(&self, severity: &Severity) -> (r: usize)
        ensures
            r == self.count(*severity),
    {
        let key = severity.rank();
        match self.findings_by_severity.get(&key) {
            Some(c) => *c,
            None => 0,
        }
    }

    /// Records one finding of severity `severity`.
    pub fn add_finding(&mut self, severity: &Severity)
        requires
            old(self).total_findings < usize::MAX,
            old(self).count(*severity) < usize::MAX,
        ensures
            final(self).findings_by_severity@ == old(self).findings_by_severity@.insert(
                severity_key(*severity),
                (old(self).count(*severity) + 1) as usize,
            ),
            final(self).count(*severity) == old(self).count(*severity) + 1,
            forall|t: Severity| t != *severity ==> #[trigger] final(self).count(t) == old(self).count(t),
            final(self).total_findings == old(self).total_findings + 1,
            final(self).total_files == old(self).total_files,
            final(self).successful_files == old(self).successful_files,
            final(self).failed_files == old(self).failed_files,
            old(self).is_consistent() ==> final(self).is_consistent(),
            forall|t: Severity| #[trigger] severity.spec_at_least(t) ==> final(self).spec_has_findings_at_or_above(t),
    {
        let key = severity.rank();
        let current: usize = match self.findings_by_severity.get(&key) {
            Some(c) => *c,
            None => 0,
        };
        self.findings_by_severity.insert(key, current + 1);
        self.total_findings = self.total_findings + 1;
        proof {
            assert forall|t: Severity| t != *severity implies #[trigger] self.count(t) == old(self).count(t) by {
                assert(severity_key(t) != severity_key(*severity));
            }
            assert forall|t: Severity| #[trigger] severity.spec_at_least(t) implies self.spec_has_findings_at_or_above(t) by {
                assert(self.count(*severity) > 0);
            }
        }
    }

    /// Whether any finding of severity `severity` or more serious was recorded; for
    /// `Info`, whether any finding was recorded.
    pub fn has_findings_at_or_above(&self, severity: &Severity) -> (b: bool)
        ensures
            b == self.spec_has_findings_at_or_above(*severity),
        decreases 4 - severity.spec_rank(),
    {
        match severity {
            Severity::Info => self.total_findings > 0,
            Severity::Low => {
                let r = self.findings_at(&Severity::Low) > 0 || self.has_findings_at_or_above(
                    &Severity::Medium,
                );
                proof {
                    if self.count(Severity::Low) > 0 {
                        assert(Severity::Low.spec_at_least(Severity::Low));
                    }
                }
                r
            },
            Severity::Medium => {
                let r = self.findings_at(&Severity::Medium) > 0 || self.has_findings_at_or_above(
                    &Severity::High,
                );
                proof {
                    if self.count(Severity::Medium) > 0 {
                        assert(Severity::Medium.spec_at_least(Severity::Medium));
                    }
                }
                r
            },
            Severity::High => {
                let r = self.findings_at(&Severity::High) > 0 || self.has_findings_at_or_above(
                    &Severity::Critical,
                );
                proof {
                    if self.count(Severity::High) > 0 {
                        assert(Severity::High.spec_at_least(Severity::High));
                    }
                }
                r
            },
            Severity::Critical => {
                let r = self.findings_at(&Severity::Critical) > 0;
                proof {
                    if self.count(Severity::Critical) > 0 {
                        assert(Severity::Critical.spec_at_least(Severity::Critical));
                    }
                }
                r
            },
        }
    }
    /// The `(severity, count)` pairs of the severities that have findings, from the
    /// least to the most serious.
    pub open spec fn spec_nonzero_counts(self) -> Seq<(Severity, usize)> {
        self.count_entry(Severity::Info) + self.count_entry(Severity::Low) + self.count_entry(
            Severity::Medium,
        ) + self.count_entry(Severity::High) + self.count_entry(Severity::Critical)
    }

    /// The pair for severity `s`, if it has findings.
    pub open spec fn count_entry(self, s: Severity) -> Seq<(Severity, usize)> {
        if self.count(s) > 0 {
            seq![(s, self.count(s) as usize)]
        } else {
            Seq::empty()
        }
    }

    /// Lists the severities that have findings with their counts, from the least to
    /// the most serious.
    pub fn nonzero_counts(&self) -> (r: Vec<(Severity, usize)>)
        ensures
            r@ == self.spec_nonzero_counts(),
    {
        let mut r: Vec<(Severity, usize)> = Vec::new();
        let severities = [
            Severity::Info,
            Severity::Low,
            Severity::Medium,
            Severity::High,
            Severity::Critical,
        ];
        let mut i: usize = 0;
        while i < 5
            invariant
                i <= 5,
                severities@ == seq![
                    Severity::Info,
                    Severity::Low,
                    Severity::Medium,
                    Severity::High,
                    Severity::Critical,
                ],
                r@ == self.nonzero_prefix(severities@, i as nat),
            decreases 5 - i,
        {
            let s = severities[i];
            let n = self.findings_at(&s);
            if n > 0 {
                r.push((s, n));
            }
            i = i + 1;
        }
        proof {
            reveal_with_fuel(AnalysisSummary::nonzero_prefix, 6);
            assert(r@ =~= self.spec_nonzero_counts());
        }
        r
    }

    /// The pairs of the first `n` severities of `order` that have findings.
    pub open spec fn nonzero_prefix(self, order: Seq<Severity>, n: nat) -> Seq<(Severity, usize)>
        decreases n,
    {
        if n == 0 {
            Seq::empty()
        } else {
            self.nonzero_prefix(order, (n - 1) as nat) + self.count_entry(order[n - 1])
        }
    }

    /// Records a file whose analysis succeeded with findings of the severities
    /// `severities`, one finding each.
    pub fn record_analyzed_file(&mut self, severities: &Vec<Severity>)
        requires
            old(self).total_files < usize::MAX,
            old(self).successful_files < usize::MAX,
            old(self).total_findings + severities@.len() <= usize::MAX,
            forall|t: Severity| #[trigger] old(self).count(t) + severities@.len() <= usize::MAX,
        ensures
            final(self).findings_by_severity@ == tally(
                old(self).findings_by_severity@,
                severities@,
            ),
            forall|t: Severity| #[trigger] final(self).count(t) == old(self).count(t) + occurrences(
                severities@,
                t,
            ),
            final(self).total_findings == old(self).total_findings + severities@.len(),
            final(self).total_files == old(self).total_files + 1,
            final(self).successful_files == old(self).successful_files + 1,
            final(self).failed_files == old(self).failed_files,
            old(self).is_consistent() ==> final(self).is_consistent(),
    {
        let ghost m0 = self.findings_by_severity@;
        let ghost t0 = self.total_findings;
        let ghost consistent0 = self.is_consistent();
        let n = severities.len();
        assert forall|t: Severity| #[trigger] count_in(m0, t) + n <= usize::MAX by {
            assert(old(self).count(t) == count_in(m0, t));
        }
        assert(severities@.take(0) =~= Seq::<Severity>::empty());
        let mut i: usize = 0;
        while i < n
            invariant
                n == severities@.len(),
                i <= n,
                self.findings_by_severity@ == tally(m0, severities@.take(i as int)),
                self.total_findings == t0 + i,
                t0 + n <= usize::MAX,
                forall|t: Severity| #[trigger] count_in(m0, t) + n <= usize::MAX,
                consistent0 ==> self.is_consistent(),
                self.total_files == old(self).total_files,
                self.successful_files == old(self).successful_files,
                self.failed_files == old(self).failed_files,
                self.total_files < usize::MAX,
                self.successful_files < usize::MAX,
            decreases n - i,
        {
            let sev = severities[i];
            proof {
                lemma_tally_counts(m0, severities@.take(i as int), sev);
                lemma_occurrences_bounded(severities@.take(i as int), sev);
            }
            self.add_finding(&sev);
            proof {
                let next = severities@.take(i + 1);
                assert(next.drop_last() =~= severities@.take(i as int));
                assert(next.last() == sev);
            }
            i = i + 1;
        }
        self.total_files = self.total_files + 1;
        self.successful_files = self.successful_files + 1;
        proof {
            assert(severities@.take(n as int) =~= severities@);
            assert forall|t: Severity| #[trigger] self.count(t) == old(self).count(t) + occurrences(
                severities@,
                t,
            ) by {
                lemma_tally_counts(m0, severities@, t);
            }
        }
    }

    /// Records a file whose analysis failed.
    pub fn record_failed_file(&mut self)
        requires
            old(self).total_files < usize::MAX,
            old(self).failed_files < usize::MAX,
        ensures
            final(self).total_files == old(self).total_files + 1,
            final(self).failed_files == old(self).failed_files + 1,
            final(self).successful_files == old(self).successful_files,
            final(self).total_findings == old(self).total_findings,
            final(self).findings_by_severity@ == old(self).findings_by_severity@,
    {
        self.total_files = self.total_files + 1;
        self.failed_files = self.failed_files + 1;
    }
}

impl Default for AnalysisSummary {
    /// A summary of nothing: no files and no findings.
    fn default() -> (r: AnalysisSummary)
        ensures
            r.total_files == 0,
            r.successful_files == 0,
            r.failed_files == 0,
            r.total_findings == 0,
            r.findings_by_severity@ == Map::<u8, usize>::empty(),
            r.is_consistent(),
    {
        AnalysisSummary {
            total_files: 0,
            successful_files: 0,
            failed_files: 0,
            findings_by_severity: HashMap::new(),
            total_findings: 0,
        }
    }
}

/// The pair for severity `t`, if it occurs in `s`.
pub open spec fn occurrence_entry(s: Seq<Severity>, t: Severity) -> Seq<(Severity, usize)> {
    if occurrences(s, t) > 0 {
        seq![(t, occurrences(s, t) as usize)]
    } else {
        Seq::empty()
    }
}

/// The severities that occur in `s` with their numbers of occurrences, from the least
/// to the most serious.
pub open spec fn severity_counts(s: Seq<Severity>) -> Seq<(Severity, usize)> {
    occurrence_entry(s, Severity::Info) + occurrence_entry(s, Severity::Low) + occurrence_entry(
        s,
        Severity::Medium,
    ) + occurrence_entry(s, Severity::High) + occurrence_entry(s, Severity::Critical)
}

/// Counts findings per severity: the severities that occur among `severities`, from
/// the least to the most serious, each with its number of occurrences.
pub fn count_by_severity(severities: &Vec<Severity>) -> (r: Vec<(Severity, usize)>)
    ensures
        r@ == severity_counts(severities@),
{
    let mut summary = AnalysisSummary::default();
    let n = severities.len();
    assert(severities@.len() == n);
    assert forall|t: Severity| #[trigger] summary.count(t) + severities@.len() <= usize::MAX by {
        assert(!summary.findings_by_severity@.contains_key(severity_key(t)));
    }
    summary.record_analyzed_file(severities);
    let r = summary.nonzero_counts();
    proof {
        assert forall|t: Severity| summary.count_entry(t) == occurrence_entry(severities@, t) by {
            assert(summary.count(t) == occurrences(severities@, t));
        }
        assert(r@ =~= severity_counts(severities@));
    }
    r
}

/// The non-zero counts of a summary list each severity that has findings, once, with
/// its count, in increasing order of seriousness, and nothing else.
pub proof fn lemma_nonzero_counts_entries(summary: AnalysisSummary)
    ensures
        forall|i: int|
            0 <= i < summary.spec_nonzero_counts().len() ==> (
            #[trigger] summary.spec_nonzero_counts()[i]).1 == summary.count(
                summary.spec_nonzero_counts()[i].0,
            ) && summary.count(summary.spec_nonzero_counts()[i].0) > 0,
        forall|i: int, j: int|
            0 <= i < j < summary.spec_nonzero_counts().len() ==> (
            #[trigger] summary.spec_nonzero_counts()[i]).0.spec_rank() < (
            #[trigger] summary.spec_nonzero_counts()[j]).0.spec_rank(),
        forall|t: Severity|
            summary.count(t) > 0 ==> exists|i: int|
                0 <= i < summary.spec_nonzero_counts().len() && (
                #[trigger] summary.spec_nonzero_counts()[i]).0 == t,
{
    let e0 = summary.count_entry(Severity::Info);
    let e1 = summary.count_entry(Severity::Low);
    let e2 = summary.count_entry(Severity::Medium);
    let e3 = summary.count_entry(Severity::High);
    let e4 = summary.count_entry(Severity::Critical);
    let r = summary.spec_nonzero_counts();
    assert(r == e0 + e1 + e2 + e3 + e4);
    let p1 = e0.len() as int;
    let p2 = p1 + e1.len();
    let p3 = p2 + e2.len();
    let p4 = p3 + e3.len();
    assert forall|i: int| 0 <= i < r.len() implies {
        let t = (#[trigger] r[i]).0;
        &&& r[i].1 == summary.count(t) && summary.count(t) > 0
        &&& (i < p1 ==> t == Severity::Info)
        &&& (p1 <= i < p2 ==> t == Severity::Low)
        &&& (p2 <= i < p3 ==> t == Severity::Medium)
        &&& (p3 <= i < p4 ==> t == Severity::High)
        &&& (p4 <= i ==> t == Severity::Critical)
    } by {
        if i < p1 {
            assert(r[i] == e0[i]);
        } else if i < p2 {
            assert(r[i] == e1[i - p1]);
        } else if i < p3 {
            assert(r[i] == e2[i - p2]);
        } else if i < p4 {
            assert(r[i] == e3[i - p3]);
        } else {
            assert(r[i] == e4[i - p4]);
        }
    }
    assert forall|t: Severity| summary.count(t) > 0 implies exists|i: int|
        0 <= i < r.len() && (#[trigger] r[i]).0 == t by {
        match t {
            Severity::Info => assert(r[0] == e0[0]),
            Severity::Low => assert(r[p1] == e1[0]),
            Severity::Medium => assert(r[p2] == e2[0]),
            Severity::High => assert(r[p3] == e3[0]),
            Severity::Critical => assert(r[p4] == e4[0]),
        }
    }
}

/// Counting by severity lists each severity that occurs, once, with its number of
/// occurrences, in increasing order of seriousness, and nothing else.
pub proof fn lemma_severity_counts_entries(s: Seq<Severity>)
    requires
        s.len() <= usize::MAX,
    ensures
        forall|i: int|
            0 <= i < severity_counts(s).len() ==> (#[trigger] severity_counts(s)[i]).1
                == occurrences(s, severity_counts(s)[i].0) && occurrences(
                s,
                severity_counts(s)[i].0,
            ) > 0,
        forall|i: int, j: int|
            0 <= i < j < severity_counts(s).len() ==> (#[trigger] severity_counts(s)[i]).0.spec_rank()
                < (#[trigger] severity_counts(s)[j]).0.spec_rank(),
        forall|t: Severity|
            occurrences(s, t) > 0 ==> exists|i: int|
                0 <= i < severity_counts(s).len() && (#[trigger] severity_counts(s)[i]).0 == t,
{
    let e0 = occurrence_entry(s, Severity::Info);
    let e1 = occurrence_entry(s, Severity::Low);
    let e2 = occurrence_entry(s, Severity::Medium);
    let e3 = occurrence_entry(s, Severity::High);
    let e4 = occurrence_entry(s, Severity::Critical);
    lemma_occurrences_bounded(s, Severity::Info);
    lemma_occurrences_bounded(s, Severity::Low);
    lemma_occurrences_bounded(s, Severity::Medium);
    lemma_occurrences_bounded(s, Severity::High);
    lemma_occurrences_bounded(s, Severity::Critical);
    let r = severity_counts(s);
    assert(r == e0 + e1 + e2 + e3 + e4);
    // Each entry is at the position given by the number of earlier severities present.
    let p1 = e0.len() as int;
    let p2 = p1 + e1.len();
    let p3 = p2 + e2.len();
    let p4 = p3 + e3.len();
    assert forall|i: int| 0 <= i < r.len() implies {
        let t = (#[trigger] r[i]).0;
        &&& r[i].1 == occurrences(s, t) && occurrences(s, t) > 0
        &&& (i < p1 ==> t == Severity::Info)
        &&& (p1 <= i < p2 ==> t == Severity::Low)
        &&& (p2 <= i < p3 ==> t == Severity::Medium)
        &&& (p3 <= i < p4 ==> t == Severity::High)
        &&& (p4 <= i ==> t == Severity::Critical)
    } by {
        if i < p1 {
            assert(r[i] == e0[i]);
        } else if i < p2 {
            assert(r[i] == e1[i - p1]);
        } else if i < p3 {
            assert(r[i] == e2[i - p2]);
        } else if i < p4 {
            assert(r[i] == e3[i - p3]);
        } else {
            assert(r[i] == e4[i - p4]);
        }
    }
    assert forall|t: Severity| occurrences(s, t) > 0 implies exists|i: int|
        0 <= i < r.len() && (#[trigger] r[i]).0 == t by {
        match t {
            Severity::Info => assert(r[0] == e0[0]),
            Severity::Low => assert(r[p1] == e1[0]),
            Severity::Medium => assert(r[p2] == e2[0]),
            Severity::High => assert(r[p3] == e3[0]),
            Severity::Critical => assert(r[p4] == e4[0]),
        }
    }
}

/// Counting a sequence of findings adds each severity's occurrences to its count.
pub proof fn lemma_tally_counts(m: Map<u8, usize>, s: Seq<Severity>, t: Severity)
    requires
        forall|u: Severity| #[trigger] count_in(m, u) + s.len() <= usize::MAX,
    ensures
        count_in(tally(m, s), t) == count_in(m, t) + occurrences(s, t),
    decreases s.len(),
{
    if s.len() > 0 {
        let last = s.last();
        lemma_tally_counts(m, s.drop_last(), t);
        lemma_tally_counts(m, s.drop_last(), last);
        lemma_occurrences_bounded(s.drop_last(), last);
        if last != t {
            assert(severity_key(last) != severity_key(t));
        }
    }
}

/// A severity occurs in a sequence at most as often as the sequence is long.
pub proof fn lemma_occurrences_bounded(s: Seq<Severity>, t: Severity)
    ensures
        occurrences(s, t) <= s.len(),
    decreases s.len(),
{
    if s.len() > 0 {
        lemma_occurrences_bounded(s.drop_last(), t);
    }
}

/// In a consistent summary, reporting findings at a severity means reporting them at
/// every less serious severity too.
pub proof fn lemma_has_findings_monotone(summary: AnalysisSummary, a: Severity, b: Severity)
    requires
        summary.is_consistent(),
        a.spec_at_least(b),
        summary.spec_has_findings_at_or_above(a),
    ensures
        summary.spec_has_findings_at_or_above(b),
{

}

/// Findings are reported at or above a severity `s` other than `Info` exactly when
/// some severity at least as serious as `s` has a positive count; a less serious
/// severity's count never counts.
pub proof fn lemma_at_or_above_means_serious_count(summary: AnalysisSummary, s: Severity)
    requires
        s != Severity::Info,
    ensures
        summary.spec_has_findings_at_or_above(s) <==> exists|t: Severity|
            t.spec_rank() >= s.spec_rank() && #[trigger] summary.count(t) > 0,
        summary.spec_has_findings_at_or_above(Severity::Critical) <==> summary.count(
            Severity::Critical,
        ) > 0,
{
    if summary.spec_has_findings_at_or_above(s) {
        if Severity::Low.spec_rank() >= s.spec_rank() && summary.count(Severity::Low) > 0 {
            assert(summary.count(Severity::Low) > 0);
        } else if Severity::Medium.spec_rank() >= s.spec_rank() && summary.count(Severity::Medium) > 0 {
            assert(summary.count(Severity::Medium) > 0);
        } else if Severity::High.spec_rank() >= s.spec_rank() && summary.count(Severity::High) > 0 {
            assert(summary.count(Severity::High) > 0);
        } else {
            assert(summary.count(Severity::Critical) > 0);
        }
    }
}

/// A consistent summary has findings at `Info` or above exactly when some severity
/// has a finding.
pub proof fn lemma_info_means_any_finding(summary: AnalysisSummary)
    requires
        summary.is_consistent(),
    ensures
        summary.spec_has_findings_at_or_above(Severity::Info) <==> exists|t: Severity|
            #[trigger] summary.count(t) > 0,
{
    if summary.total_findings > 0 {
        if summary.count(Severity::Info) > 0 {
        } else if summary.count(Severity::Low) > 0 {
        } else if summary.count(Severity::Medium) > 0 {
        } else if summary.count(Severity::High) > 0 {
        } else {
            assert(summary.count(Severity::Critical) > 0);
        }
    }
}

} // verus!
