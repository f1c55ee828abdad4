//! Aggregation of classified commits into a release analysis: counts by
//! kind and by impact, the breaking changes, the recommended version bump and
//! the confidence in the whole.

use vstd::prelude::*;
use crate::classifier::{
    breaking_message, commit_impact, commit_type, rule_views, ChangeAnalyzer, ImpactLevel, RuleView,
};
use crate::error::strings;
use crate::history::{commit_records, opt_str, ChangeType, CommitRecord, GitCommit};
use crate::pattern::opt_text;
use crate::text::{append_str, from_chars, to_chars};
use crate::version::VersionBump;

verus! {

/// How many commits of each kind a range holds.
#[derive(Debug, Clone, Copy, PartialEq, Eq, Structural)]
pub struct ChangeSummary {
    pub feature: usize,
    pub fix: usize,
    pub breaking: usize,
    pub improvement: usize,
    pub documentation: usize,
    pub testing: usize,
    pub refactoring: usize,
    pub chore: usize,
    pub other: usize,
}

/// How many commits of each impact a range holds.
#[derive(Debug, Clone, Copy, PartialEq, Eq, Structural)]
pub struct ImpactDistribution {
    pub low: usize,
    pub medium: usize,
    pub high: usize,
    pub critical: usize,
}

/// How often `x` occurs in `s`.
pub open spec fn occurrences<T>(s: Seq<T>, x: T) -> nat
    decreases s.len(),
{
    if s.len() == 0 {
        0
    } else {
        occurrences(s.drop_last(), x) + if s.last() == x {
            1nat
        } else {
            0nat
        }
    }
}

impl ChangeSummary {
    /// The number of commits of kind `t`.
    pub open spec fn count(self, t: ChangeType) -> nat {
        match t {
            ChangeType::Feature => self.feature as nat,
            ChangeType::Fix => self.fix as nat,
            ChangeType::Breaking => self.breaking as nat,
            ChangeType::Improvement => self.improvement as nat,
            ChangeType::Documentation => self.documentation as nat,
            ChangeType::Testing => self.testing as nat,
            ChangeType::Refactoring => self.refactoring as nat,
            ChangeType::Chore => self.chore as nat,
            ChangeType::Other => self.other as nat,
        }
    }

    /// The number of commits of all kinds together.
    pub open spec fn total(self) -> nat {
        (self.feature + self.fix + self.breaking + self.improvement + self.documentation
            + self.testing + self.refactoring + self.chore + self.other) as nat
    }

    /// The summary of no commit at all.
    pub fn new() -> (r: Self)
        ensures
            forall|t: ChangeType| r.count(t) == 0,
            r.total() == 0,
    {
        ChangeSummary {
            feature: 0,
            fix: 0,
            breaking: 0,
            improvement: 0,
            documentation: 0,
            testing: 0,
            refactoring: 0,
            chore: 0,
            other: 0,
        }
    }

    /// The number of commits of kind `t`.
    pub fn get(&self, t: ChangeType) -> (r: usize)
        ensures
            r == self.count(t),
    {
        match t {
            ChangeType::Feature => self.feature,
            ChangeType::Fix => self.fix,
            ChangeType::Breaking => self.breaking,
            ChangeType::Improvement => self.improvement,
            ChangeType::Documentation => self.documentation,
            ChangeType::Testing => self.testing,
            ChangeType::Refactoring => self.refactoring,
            ChangeType::Chore => self.chore,
            ChangeType::Other => self.other,
        }
    }

    /// Whether any commit is of kind `t`.
    pub fn contains_key(&self, t: ChangeType) -> (r: bool)
        ensures
            r == (self.count(t) > 0),
    {
        self.get(t) > 0
    }

    /// Sets the number of commits of kind `t` to `n`.
    pub fn insert(&mut self, t: ChangeType, n: usize)
        ensures
            final(self).count(t) == n,
            forall|u: ChangeType| u != t ==> final(self).count(u) == old(self).count(u),
            final(self).feature + final(self).fix + final(self).breaking + final(self).improvement
                + final(self).documentation + final(self).testing + final(self).refactoring
                + final(self).chore + final(self).other == old(self).feature + old(self).fix
                + old(self).breaking + old(self).improvement + old(self).documentation
                + old(self).testing + old(self).refactoring + old(self).chore + old(self).other
                - old(self).count(t) + n,
    {
        match t {
            ChangeType::Feature => {
                self.feature = n;
            },
            ChangeType::Fix => {
                self.fix = n;
            },
            ChangeType::Breaking => {
                self.breaking = n;
            },
            ChangeType::Improvement => {
                self.improvement = n;
            },
            ChangeType::Documentation => {
                self.documentation = n;
            },
            ChangeType::Testing => {
                self.testing = n;
            },
            ChangeType::Refactoring => {
                self.refactoring = n;
            },
            ChangeType::Chore => {
                self.chore = n;
            },
            ChangeType::Other => {
                self.other = n;
            },
        }
    }

    /// Counts one more commit of kind `t`.
    pub fn record(&mut self, t: ChangeType)
        requires
            old(self).count(t) < usize::MAX,
        ensures
            final(self).count(t) == old(self).count(t) + 1,
            forall|u: ChangeType| u != t ==> final(self).count(u) == old(self).count(u),
            final(self).total() == old(self).total() + 1,
    {
        let n = self.get(t);
        self.insert(t, n + 1);
    }
}

impl ImpactDistribution {
    /// The number of commits of impact `l`.
    pub open spec fn count(self, l: ImpactLevel) -> nat {
        match l {
            ImpactLevel::Low => self.low as nat,
            ImpactLevel::Medium => self.medium as nat,
            ImpactLevel::High => self.high as nat,
            ImpactLevel::Critical => self.critical as nat,
        }
    }

    /// The distribution of no commit at all.
    pub fn new() -> (r: Self)
        ensures
            forall|l: ImpactLevel| r.count(l) == 0,
    {
        ImpactDistribution { low: 0, medium: 0, high: 0, critical: 0 }
    }

    /// The number of commits of impact `l`.
    pub fn get(&self, l: ImpactLevel) -> (r: usize)
        ensures
            r == self.count(l),
    {
        match l {
            ImpactLevel::Low => self.low,
            ImpactLevel::Medium => self.medium,
            ImpactLevel::High => self.high,
            ImpactLevel::Critical => self.critical,
        }
    }

    /// Counts one more commit of impact `l`.
    pub fn record(&mut self, l: ImpactLevel)
        requires
            old(self).count(l) < usize::MAX,
        ensures
            final(self).count(l) == old(self).count(l) + 1,
            forall|m: ImpactLevel| m != l ==> final(self).count(m) == old(self).count(m),
    {
        match l {
            ImpactLevel::Low => {
                self.low = self.low + 1;
            },
            ImpactLevel::Medium => {
                self.medium = self.medium + 1;
            },
            ImpactLevel::High => {
                self.high = self.high + 1;
            },
            ImpactLevel::Critical => {
                self.critical = self.critical + 1;
            },
        }
    }
}

/// The analysis of the commits of one range.
#[derive(Debug, Clone)]
pub struct ReleaseAnalysis {
    pub version_from: String,
    pub version_to: Option<String>,
    pub total_commits: usize,
    pub change_summary: ChangeSummary,
    pub impact_distribution: ImpactDistribution,
    pub breaking_changes: Vec<String>,
    pub recommended_version_bump: VersionBump,
    /// Confidence in the analysis, in percent.
    pub confidence: u32,
}

/// The bump to recommend: major when anything breaks, else minor when there
/// is a feature, else patch.
pub open spec fn recommended(summary: ChangeSummary, breaking: nat) -> VersionBump {
    if breaking > 0 || summary.count(ChangeType::Breaking) > 0 {
        VersionBump::Major
    } else if summary.count(ChangeType::Feature) > 0 {
        VersionBump::Minor
    } else {
        VersionBump::Patch
    }
}

/// Confidence in an analysis, in percent: by the share of commits whose kind
/// is not `Other`. At least nine in ten give 90, seven in ten 70, half 50,
/// fewer 30; no commit at all gives 0.
pub open spec fn analysis_confidence(summary: ChangeSummary, total: nat) -> u32 {
    let classified = total - summary.count(ChangeType::Other);
    if total == 0 {
        0
    } else if classified * 10 >= total * 9 {
        90
    } else if classified * 10 >= total * 7 {
        70
    } else if classified * 10 >= total * 5 {
        50
    } else {
        30
    }
}

/// The kinds of `commits` under `rules`, in order.
pub open spec fn types_of(rules: Seq<RuleView>, commits: Seq<CommitRecord>) -> Seq<ChangeType> {
    commits.map_values(|c: CommitRecord| commit_type(rules, c))
}

/// The impacts of `commits` under `rules`, in order.
pub open spec fn impacts_of(rules: Seq<RuleView>, commits: Seq<CommitRecord>) -> Seq<ImpactLevel> {
    commits.map_values(|c: CommitRecord| commit_impact(rules, c))
}

/// The summary line of a breaking commit: its short hash, a colon and its
/// message.
pub open spec fn breaking_line(c: CommitRecord) -> Seq<char> {
    c.short_hash + ": "@ + c.message
}

/// The summary lines of the breaking commits among `commits`, in order.
pub open spec fn breaking_lines(commits: Seq<CommitRecord>) -> Seq<Seq<char>>
    decreases commits.len(),
{
    if commits.len() == 0 {
        Seq::empty()
    } else if breaking_message(commits.last().message) {
        breaking_lines(commits.drop_last()).push(breaking_line(commits.last()))
    } else {
        breaking_lines(commits.drop_last())
    }
}

/// `a` is the analysis of `commits` under `rules` for the range from `from`
/// to `to`.
pub open spec fn is_analysis_of(
    a: ReleaseAnalysis,
    rules: Seq<RuleView>,
    commits: Seq<CommitRecord>,
    from: Option<Seq<char>>,
    to: Option<Seq<char>>,
) -> bool {
    &&& a.version_from@ == match from {
        Some(f) => f,
        None => "HEAD"@,
    }
    &&& opt_text(a.version_to) == to
    &&& a.total_commits == commits.len()
    &&& forall|t: ChangeType| a.change_summary.count(t) == occurrences(types_of(rules, commits), t)
    &&& forall|l: ImpactLevel|
        a.impact_distribution.count(l) == occurrences(impacts_of(rules, commits), l)
    &&& strings(a.breaking_changes@) == breaking_lines(commits)
    &&& a.recommended_version_bump == recommended(
        a.change_summary,
        a.breaking_changes@.len(),
    )
    &&& a.confidence == analysis_confidence(a.change_summary, commits.len())
    &&& a.change_summary.total() == a.total_commits
}

impl ChangeAnalyzer {
    /// The bump to recommend for a range with the given counts and breaking
    /// changes.
    pub fn recommend_version_bump(
        &self,
        change_summary: &ChangeSummary,
        breaking_changes: &[String],
    ) -> (r: VersionBump)
        ensures
            r == recommended(*change_summary, breaking_changes@.len()),
            r is Major <==> (breaking_changes@.len() > 0 || change_summary.count(
                ChangeType::Breaking,
            ) > 0),
            r is Minor <==> (!(r is Major) && change_summary.count(ChangeType::Feature) > 0),
            r is Patch <==> (!(r is Major) && !(r is Minor)),
    {
        if breaking_changes.len() > 0 || change_summary.contains_key(ChangeType::Breaking) {
            VersionBump::Major
        } else if change_summary.get(ChangeType::Feature) > 0 {
            VersionBump::Minor
        } else {
            VersionBump::Patch
        }
    }

    /// Confidence in an analysis of `total_commits` commits, in percent.
    pub fn calculate_analysis_confidence(
        &self,
        change_summary: &ChangeSummary,
        total_commits: usize,
    ) -> (r: u32)
        ensures
            r == analysis_confidence(*change_summary, total_commits as nat),
    {
        if total_commits == 0 {
            return 0;
        }
        let total: u128 = total_commits as u128;
        if change_summary.other > total_commits {
            return 30;
        }
        let classified: u128 = (total_commits - change_summary.other) as u128;
        if classified * 10 >= total * 9 {
            90
        } else if classified * 10 >= total * 7 {
            70
        } else if classified * 10 >= total * 5 {
            50
        } else {
            30
        }
    }

    /// Analyses the commits of the range from `from_ref` to `to_ref`. The
    /// empty range is analysed like any other.
    pub fn analyze_changes(
        &self,
        from_ref: Option<&str>,
        to_ref: Option<&str>,
        commits: &Vec<GitCommit>,
    ) -> (r: ReleaseAnalysis)
        ensures
            is_analysis_of(
                r,
                rule_views(self.change_patterns@),
                commit_records(commits@),
                opt_str(from_ref),
                opt_str(to_ref),
            ),
            r.change_summary.total() == r.total_commits,
            r.total_commits == commits.len(),
    {
        let ghost rules = rule_views(self.change_patterns@);
        let ghost records = commit_records(commits@);
        let mut change_summary = ChangeSummary::new();
        let mut impact_distribution = ImpactDistribution::new();
        let mut breaking_changes: Vec<String> = Vec::new();
        let mut i: usize = 0;
        assert(records.subrange(0, 0) =~= Seq::<CommitRecord>::empty());
        assert(strings(breaking_changes@) =~= Seq::<Seq<char>>::empty());
        assert(types_of(rules, records.subrange(0, 0)) =~= Seq::<ChangeType>::empty());
        assert(impacts_of(rules, records.subrange(0, 0)) =~= Seq::<ImpactLevel>::empty());
        while i < commits.len()
            invariant
                i <= commits.len(),
                rules == rule_views(self.change_patterns@),
                records == commit_records(commits@),
                change_summary.total() == i,
                forall|t: ChangeType|
                    change_summary.count(t) == occurrences(
                        types_of(rules, records.subrange(0, i as int)),
                        t,
                    ),
                forall|l: ImpactLevel|
                    impact_distribution.count(l) == occurrences(
                        impacts_of(rules, records.subrange(0, i as int)),
                        l,
                    ),
                forall|l: ImpactLevel| impact_distribution.count(l) <= i,
                strings(breaking_changes@) == breaking_lines(records.subrange(0, i as int)),
            decreases commits.len() - i,
        {
            let commit = &commits[i];
            let ghost before = records.subrange(0, i as int);
            let ghost after = records.subrange(0, i + 1);
            assert(after.drop_last() =~= before);
            assert(after.last() == commit@);
            assert(types_of(rules, after).drop_last() =~= types_of(rules, before));
            assert(impacts_of(rules, after).drop_last() =~= impacts_of(rules, before));
            let analysis = self.analyze_commit(commit);
            assert(change_summary.count(analysis.change_type) <= change_summary.total());
            change_summary.record(analysis.change_type);
            impact_distribution.record(analysis.impact_level);
            if analysis.breaking_changes {
                let mut line = to_chars(commit.short_hash.as_str());
                append_str(&mut line, ": ");
                append_str(&mut line, commit.message.as_str());
                let ghost old_lines = breaking_changes@;
                let text = from_chars(&line);
                breaking_changes.push(text);
                assert(strings(breaking_changes@) =~= strings(old_lines).push(text@));
            }
            i = i + 1;
        }
        assert(records.subrange(0, commits.len() as int) =~= records);
        let recommended_version_bump = self.recommend_version_bump(
            &change_summary,
            breaking_changes.as_slice(),
        );
        let confidence = self.calculate_analysis_confidence(&change_summary, commits.len());
        ReleaseAnalysis {
            version_from: match from_ref {
                Some(f) => f.to_owned(),
                None => "HEAD".to_owned(),
            },
            version_to: match to_ref {
                Some(t) => Some(t.to_owned()),
                None => None,
            },
            total_commits: commits.len(),
            change_summary,
            impact_distribution,
            breaking_changes,
            recommended_version_bump,
            confidence,
        }
    }

    /// The analysis of the most recent commits: `recent`, newest first. Its
    /// range runs from the oldest of them to `HEAD`. Without recent commits
    /// the analysis is the empty one.
    pub fn get_recent_summary(&self, recent: &Vec<GitCommit>) -> (r: ReleaseAnalysis)
        ensures
            is_analysis_of(
                r,
                rule_views(self.change_patterns@),
                commit_records(recent@),
                if recent.len() == 0 {
                    None
                } else {
                    Some(recent@.last().hash@)
                },
                if recent.len() == 0 {
                    None
                } else {
                    Some("HEAD"@)
                },
            ),
            r.total_commits == recent.len(),
    {
        if recent.len() == 0 {
            self.analyze_changes(None, None, recent)
        } else {
            let oldest = &recent[recent.len() - 1];
            self.analyze_changes(Some(oldest.hash.as_str()), Some("HEAD"), recent)
        }
    }
}

} // verus!
