//! Classification of one commit: its kind of change, how sure that is, how
//! much it affects, and which areas it touches.
//!
//! Kinds are tried in a fixed order of precedence, each with its own set of
//! patterns; the first kind with a matching pattern wins.

use vstd::prelude::*;
use crate::error::strings;
use crate::history::{kind_emoji, kind_name, ChangeType, CommitRecord, GitCommit, GitHistory};
use crate::pattern::{capture, is_match, regex_group, regex_match, regex_replaced, replace_first};
use crate::split::{trim, trim_text};
use crate::text::{append, append_str, from_chars, to_chars};

verus! {

/// How much a change affects the users of the artifact.
#[derive(Debug, Clone, Copy, PartialEq, Eq, Hash, Structural)]
pub enum ImpactLevel {
    Low,
    Medium,
    High,
    Critical,
}

/// One kind of change with the patterns that reveal it.
#[derive(Debug, Clone)]
pub struct PatternRule {
    pub change_type: ChangeType,
    pub patterns: Vec<String>,
}

/// The mathematical content of a `PatternRule`.
pub ghost struct RuleView {
    pub change_type: ChangeType,
    pub patterns: Seq<Seq<char>>,
}

impl View for PatternRule {
    type V = RuleView;

    open spec fn view(&self) -> RuleView {
        RuleView { change_type: self.change_type, patterns: strings(self.patterns@) }
    }
}

/// The views of a list of rules.
pub open spec fn rule_views(v: Seq<PatternRule>) -> Seq<RuleView> {
    v.map_values(|r: PatternRule| r@)
}

/// What the classification of one commit found.
#[derive(Debug, Clone)]
pub struct ChangeAnalysis {
    pub change_type: ChangeType,
    /// Confidence in the kind, in percent.
    pub confidence: u32,
    pub affected_areas: Vec<String>,
    pub breaking_changes: bool,
    pub description: String,
    pub impact_level: ImpactLevel,
}

/// Classifies commits and aggregates them into a release analysis.
#[derive(Debug, Clone)]
pub struct ChangeAnalyzer {
    pub repository_path: String,
    pub git_history: GitHistory,
    pub change_patterns: Vec<PatternRule>,
}

/// `pattern` is accepted by the engine and matches somewhere in `message`.
pub open spec fn hit(pattern: Seq<char>, message: Seq<char>) -> bool {
    regex_match(pattern, message) == Some(true)
}

/// How many of `patterns` match `message`.
pub open spec fn hit_count(patterns: Seq<Seq<char>>, message: Seq<char>) -> nat
    decreases patterns.len(),
{
    if patterns.len() == 0 {
        0
    } else {
        hit_count(patterns.drop_last(), message) + if hit(patterns.last(), message) {
            1nat
        } else {
            0nat
        }
    }
}

/// For each rule, how many of its patterns match `message`.
pub open spec fn rule_hits(rules: Seq<RuleView>, message: Seq<char>) -> Seq<nat> {
    rules.map_values(|r: RuleView| hit_count(r.patterns, message))
}

/// The index of the first count above zero; the length when there is none.
pub open spec fn first_positive(hits: Seq<nat>) -> int
    decreases hits.len(),
{
    if hits.len() == 0 {
        0
    } else if hits[0] > 0 {
        0
    } else {
        1 + first_positive(hits.drop_first())
    }
}

/// Confidence, in percent, that follows from the number of patterns of the
/// winning kind that matched.
pub open spec fn confidence_for(matches: nat) -> u32 {
    if matches == 0 {
        30
    } else if matches == 1 {
        70
    } else {
        90
    }
}

/// The kind that wins: that of the first rule with a match, `Other`
/// when no rule matches.
pub open spec fn winning_type(rules: Seq<RuleView>, hits: Seq<nat>) -> ChangeType {
    let i = first_positive(hits);
    if i < hits.len() && i < rules.len() {
        rules[i].change_type
    } else {
        ChangeType::Other
    }
}

/// The confidence in the winning kind, in percent.
pub open spec fn winning_confidence(rules: Seq<RuleView>, hits: Seq<nat>) -> u32 {
    let i = first_positive(hits);
    if i < hits.len() && i < rules.len() {
        confidence_for(hits[i])
    } else {
        confidence_for(0)
    }
}

/// The impact of a change of kind `t` with the given line counts.
pub open spec fn impact_of(t: ChangeType, insertions: u32, deletions: u32) -> ImpactLevel {
    match t {
        ChangeType::Breaking => ImpactLevel::Critical,
        ChangeType::Feature => if insertions > 100 {
            ImpactLevel::High
        } else {
            ImpactLevel::Medium
        },
        ChangeType::Fix | ChangeType::Refactoring | ChangeType::Improvement => ImpactLevel::Medium,
        ChangeType::Documentation | ChangeType::Testing | ChangeType::Chore => ImpactLevel::Low,
        ChangeType::Other => if insertions + deletions > 50 {
            ImpactLevel::Medium
        } else {
            ImpactLevel::Low
        },
    }
}

/// The kinds that have patterns, in their order of precedence: breaking
/// changes first, then features, fixes, refactoring, documentation, tests,
/// improvements and chores.
pub open spec fn precedence() -> Seq<ChangeType> {
    seq![
        ChangeType::Breaking,
        ChangeType::Feature,
        ChangeType::Fix,
        ChangeType::Refactoring,
        ChangeType::Documentation,
        ChangeType::Testing,
        ChangeType::Improvement,
        ChangeType::Chore,
    ]
}

/// The patterns that reveal a kind of change: a conventional-commit prefix
/// and keywords.
pub open spec fn kind_patterns(t: ChangeType) -> Seq<Seq<char>> {
    match t {
        ChangeType::Breaking => seq![
            "(?i)break"@,
            "(?i)breaking"@,
            "(?i)!:"@,
            "(?i)feat!"@,
            "(?i)критический"@,
            "(?i)несовместимый"@,
        ],
        ChangeType::Feature => seq![
            r"(?i)^(feat|feature)([\(\[].*[\)\]])?:"@,
            "(?i)добавлен"@,
            "(?i)новый"@,
            "(?i)new feature"@,
            "(?i)реализован"@,
            "(?i)создан"@,
        ],
        ChangeType::Fix => seq![
            r"(?i)^(fix|bugfix)([\(\[].*[\)\]])?:"@,
            "(?i)исправлен"@,
            "(?i)фикс"@,
            "(?i)bug"@,
            "(?i)ошибка"@,
            "(?i)проблема"@,
        ],
        ChangeType::Refactoring => seq![
            r"(?i)^(refactor|refact)([\(\[].*[\)\]])?:"@,
            "(?i)рефакторинг"@,
            "(?i)реорганизация"@,
            "(?i)реструктуризация"@,
        ],
        ChangeType::Documentation => seq![
            r"(?i)^(docs|doc)([\(\[].*[\)\]])?:"@,
            "(?i)документация"@,
            "(?i)документацию"@,
            "(?i)readme"@,
        ],
        ChangeType::Testing => seq![
            r"(?i)^(test|tests)([\(\[].*[\)\]])?:"@,
            "(?i)тест"@,
            "(?i)тестирование"@,
            "(?i)spec"@,
        ],
        ChangeType::Improvement => seq![
            r"(?i)^(improve|improvement)([\(\[].*[\)\]])?:"@,
            "(?i)улучшение"@,
            "(?i)оптимизация"@,
            "(?i)refactor"@,
            "(?i)рефакторинг"@,
        ],
        ChangeType::Chore => seq![
            r"(?i)^(chore|build|ci)([\(\[].*[\)\]])?:"@,
            "(?i)обслуживание"@,
            "(?i)обновление зависимостей"@,
            "(?i)настройка"@,
        ],
        ChangeType::Other => Seq::empty(),
    }
}

/// The rules in their order of precedence.
pub open spec fn default_rules() -> Seq<RuleView> {
    precedence().map_values(|t: ChangeType| RuleView { change_type: t, patterns: kind_patterns(t) })
}

/// The patterns that mark a commit as breaking, whatever its kind.
pub open spec fn breaking_patterns() -> Seq<Seq<char>> {
    seq![
        "(?i)break"@,
        "(?i)breaking"@,
        "(?i)!:"@,
        "(?i)feat!"@,
        "(?i)deprecate"@,
        "(?i)remove"@,
        "(?i)delete"@,
        "(?i)несовместимый"@,
        "(?i)критический"@,
    ]
}

/// Whether `message` marks a breaking change.
pub open spec fn breaking_message(message: Seq<char>) -> bool {
    hit_count(breaking_patterns(), message) > 0
}

/// The patterns whose first group names an affected area: a scope in round
/// brackets, a path under `src/`, a source file, a module.
pub open spec fn area_patterns() -> Seq<Seq<char>> {
    seq![
        r"\(([^)]+)\)"@,
        r"src/([a-zA-Z0-9_/]+)"@,
        r"([a-zA-Z0-9_]+)\.(java|kt|rs|py|js|ts)"@,
        r"module\s+([a-zA-Z0-9_]+)"@,
    ]
}

/// The areas that `patterns` find in `message`, one for each pattern whose
/// first group took part in a match, in the order of the patterns.
pub open spec fn found_areas(patterns: Seq<Seq<char>>, message: Seq<char>) -> Seq<Seq<char>>
    decreases patterns.len(),
{
    if patterns.len() == 0 {
        Seq::empty()
    } else {
        let before = found_areas(patterns.drop_last(), message);
        match regex_group(patterns.last(), message, 1) {
            Some(a) => before.push(a),
            None => before,
        }
    }
}

/// The pattern of a conventional-commit header up to its colon and the
/// white space behind it.
pub open spec fn header_pattern() -> Seq<char> {
    r"^(feat|fix|docs|style|refactor|test|chore|build|ci|perf)(\([^)]*\))?:\s*"@
}

/// `message` without its conventional-commit header and surrounding white
/// space.
pub open spec fn bare_message(message: Seq<char>) -> Seq<char> {
    match regex_replaced(header_pattern(), message, Seq::empty()) {
        Some(t) => trim_text(t),
        None => trim_text(message),
    }
}

/// The one-line description of a change: the pictogram of its kind, then
/// the bare message, or the name of the kind when nothing is left of the
/// message.
pub open spec fn description_of(message: Seq<char>, t: ChangeType) -> Seq<char> {
    let d = bare_message(message);
    if d.len() == 0 {
        kind_emoji(t) + ": "@ + kind_name(t)
    } else {
        kind_emoji(t) + ": "@ + d
    }
}

/// With every count before `i` at zero, and `i` at the end or at a count
/// above zero, `i` is the first positive index.
pub proof fn lemma_first_positive(hits: Seq<nat>, i: int)
    requires
        0 <= i <= hits.len(),
        forall|j: int| 0 <= j < i ==> hits[j] == 0,
        i == hits.len() || hits[i] > 0,
    ensures
        first_positive(hits) == i,
    decreases i,
{
    if i > 0 {
        let rest = hits.drop_first();
        assert forall|j: int| 0 <= j < i - 1 implies rest[j] == 0 by {
            assert(rest[j] == hits[j + 1]);
        }
        lemma_first_positive(rest, i - 1);
    }
}

/// The views of a list of fixed strings.
pub open spec fn literals(v: Seq<&'static str>) -> Seq<Seq<char>> {
    v.map_values(|s: &'static str| s@)
}

/// A rule made of a kind and its patterns.
pub fn make_rule(change_type: ChangeType, patterns: Vec<&'static str>) -> (r: PatternRule)
    ensures
        r@.change_type == change_type,
        r@.patterns == literals(patterns@),
{
    let mut owned: Vec<String> = Vec::new();
    let mut i: usize = 0;
    while i < patterns.len()
        invariant
            i <= patterns.len(),
            owned.len() == i,
            forall|j: int| 0 <= j < i ==> (#[trigger] owned@[j])@ == patterns@[j]@,
        decreases patterns.len() - i,
    {
        owned.push(patterns[i].to_owned());
        i = i + 1;
    }
    assert(strings(owned@) =~= literals(patterns@));
    PatternRule { change_type, patterns: owned }
}

/// The patterns that reveal a kind of change.
pub fn patterns_for(t: ChangeType) -> (r: Vec<&'static str>)
    ensures
        literals(r@) == kind_patterns(t),
{
    let r: Vec<&'static str> = match t {
        ChangeType::Breaking => vec![
            "(?i)break",
            "(?i)breaking",
            "(?i)!:",
            "(?i)feat!",
            "(?i)критический",
            "(?i)несовместимый",
        ],
        ChangeType::Feature => vec![
            r"(?i)^(feat|feature)([\(\[].*[\)\]])?:",
            "(?i)добавлен",
            "(?i)новый",
            "(?i)new feature",
            "(?i)реализован",
            "(?i)создан",
        ],
        ChangeType::Fix => vec![
            r"(?i)^(fix|bugfix)([\(\[].*[\)\]])?:",
            "(?i)исправлен",
            "(?i)фикс",
            "(?i)bug",
            "(?i)ошибка",
            "(?i)проблема",
        ],
        ChangeType::Refactoring => vec![
            r"(?i)^(refactor|refact)([\(\[].*[\)\]])?:",
            "(?i)рефакторинг",
            "(?i)реорганизация",
            "(?i)реструктуризация",
        ],
        ChangeType::Documentation => vec![
            r"(?i)^(docs|doc)([\(\[].*[\)\]])?:",
            "(?i)документация",
            "(?i)документацию",
            "(?i)readme",
        ],
        ChangeType::Testing => vec![
            r"(?i)^(test|tests)([\(\[].*[\)\]])?:",
            "(?i)тест",
            "(?i)тестирование",
            "(?i)spec",
        ],
        ChangeType::Improvement => vec![
            r"(?i)^(improve|improvement)([\(\[].*[\)\]])?:",
            "(?i)улучшение",
            "(?i)оптимизация",
            "(?i)refactor",
            "(?i)рефакторинг",
        ],
        ChangeType::Chore => vec![
            r"(?i)^(chore|build|ci)([\(\[].*[\)\]])?:",
            "(?i)обслуживание",
            "(?i)обновление зависимостей",
            "(?i)настройка",
        ],
        ChangeType::Other => Vec::new(),
    };
    assert(literals(r@) =~= kind_patterns(t));
    r
}

/// How many of `patterns` match `message`.
pub fn count_hits(patterns: &Vec<String>, message: &str) -> (r: usize)
    ensures
        r == hit_count(strings(patterns@), message@),
        r <= patterns.len(),
{
    let mut count: usize = 0;
    let mut i: usize = 0;
    assert(strings(patterns@).subrange(0, 0) =~= Seq::<Seq<char>>::empty());
    while i < patterns.len()
        invariant
            i <= patterns.len(),
            count <= i,
            count == hit_count(strings(patterns@).subrange(0, i as int), message@),
        decreases patterns.len() - i,
    {
        let ghost before = strings(patterns@).subrange(0, i as int);
        let ghost after = strings(patterns@).subrange(0, i + 1);
        assert(after.drop_last() =~= before);
        assert(after.last() == patterns@[i as int]@);
        match is_match(patterns[i].as_str(), message) {
            Some(true) => {
                count = count + 1;
            },
            _ => {},
        }
        i = i + 1;
    }
    assert(strings(patterns@).subrange(0, patterns.len() as int) =~= strings(patterns@));
    count
}

/// How many of the fixed patterns `patterns` match `message`.
pub fn count_fixed_hits(patterns: Vec<&'static str>, message: &str) -> (r: usize)
    ensures
        r == hit_count(literals(patterns@), message@),
{
    let rule = make_rule(ChangeType::Other, patterns);
    count_hits(&rule.patterns, message)
}

/// The kind and confidence (in percent) that follow from the number of
/// matching patterns of each rule: the first rule with a match wins;
/// without any match the kind is `Other`.
pub fn classify_hits(rules: &Vec<PatternRule>, hits: &Vec<usize>) -> (r: (ChangeType, u32))
    ensures
        r.0 == winning_type(rule_views(rules@), hits@.map_values(|h: usize| h as nat)),
        r.1 == winning_confidence(rule_views(rules@), hits@.map_values(|h: usize| h as nat)),
{
    let ghost counts = hits@.map_values(|h: usize| h as nat);
    let mut i: usize = 0;
    while i < hits.len() && hits[i] == 0
        invariant
            i <= hits.len(),
            counts == hits@.map_values(|h: usize| h as nat),
            forall|j: int| 0 <= j < i ==> counts[j] == 0,
        decreases hits.len() - i,
    {
        i = i + 1;
    }
    proof {
        lemma_first_positive(counts, i as int);
    }
    if i < hits.len() && i < rules.len() {
        let matches = hits[i];
        let confidence: u32 = if matches == 1 {
            70
        } else {
            90
        };
        (rules[i].change_type, confidence)
    } else {
        (ChangeType::Other, 30)
    }
}

/// The impact of a change of kind `change_type` with the given line counts.
pub fn impact_level(change_type: ChangeType, insertions: u32, deletions: u32) -> (r: ImpactLevel)
    ensures
        r == impact_of(change_type, insertions, deletions),
{
    match change_type {
        ChangeType::Breaking => ImpactLevel::Critical,
        ChangeType::Feature => if insertions > 100 {
            ImpactLevel::High
        } else {
            ImpactLevel::Medium
        },
        ChangeType::Fix | ChangeType::Refactoring | ChangeType::Improvement => ImpactLevel::Medium,
        ChangeType::Documentation | ChangeType::Testing | ChangeType::Chore => ImpactLevel::Low,
        ChangeType::Other => if insertions > 50 || deletions > 50 - insertions {
            ImpactLevel::Medium
        } else {
            ImpactLevel::Low
        },
    }
}

impl ChangeAnalyzer {
    /// An analyzer for the repository at `repository_path`, with the rules
    /// in their fixed order of precedence.
    pub fn new(repository_path: &str) -> (r: Self)
        ensures
            r.repository_path@ == repository_path@,
            r.git_history.repository_path@ == repository_path@,
            rule_views(r.change_patterns@) == default_rules(),
    {
        let order: Vec<ChangeType> = vec![
            ChangeType::Breaking,
            ChangeType::Feature,
            ChangeType::Fix,
            ChangeType::Refactoring,
            ChangeType::Documentation,
            ChangeType::Testing,
            ChangeType::Improvement,
            ChangeType::Chore,
        ];
        assert(order@ =~= precedence());
        let mut rules: Vec<PatternRule> = Vec::new();
        let mut i: usize = 0;
        while i < order.len()
            invariant
                i <= order.len(),
                rules.len() == i,
                forall|j: int|
                    0 <= j < i ==> (#[trigger] rules@[j])@ == (RuleView {
                        change_type: order@[j],
                        patterns: kind_patterns(order@[j]),
                    }),
            decreases order.len() - i,
        {
            rules.push(make_rule(order[i], patterns_for(order[i])));
            i = i + 1;
        }
        assert(rule_views(rules@) =~= default_rules());
        ChangeAnalyzer {
            repository_path: repository_path.to_owned(),
            git_history: GitHistory::new(repository_path),
            change_patterns: rules,
        }
    }

    /// For each rule, how many of its patterns match `message`.
    pub fn match_counts(&self, message: &str) -> (r: Vec<usize>)
        ensures
            r@.map_values(|h: usize| h as nat) == rule_hits(
                rule_views(self.change_patterns@),
                message@,
            ),
    {
        let mut hits: Vec<usize> = Vec::new();
        let mut i: usize = 0;
        while i < self.change_patterns.len()
            invariant
                i <= self.change_patterns.len(),
                hits.len() == i,
                forall|j: int|
                    0 <= j < i ==> (#[trigger] hits@[j]) as nat == hit_count(
                        self.change_patterns@[j]@.patterns,
                        message@,
                    ),
            decreases self.change_patterns.len() - i,
        {
            let n = count_hits(&self.change_patterns[i].patterns, message);
            hits.push(n);
            i = i + 1;
        }
        assert(hits@.map_values(|h: usize| h as nat) =~= rule_hits(
            rule_views(self.change_patterns@),
            message@,
        ));
        hits
    }

    /// The kind of change that `message` tells of.
    pub fn detect_change_type(&self, message: &str) -> (r: ChangeType)
        ensures
            r == winning_type(
                rule_views(self.change_patterns@),
                rule_hits(rule_views(self.change_patterns@), message@),
            ),
    {
        let hits = self.match_counts(message);
        classify_hits(&self.change_patterns, &hits).0
    }

    /// The confidence, in percent, in the kind detected for `message`.
    pub fn calculate_confidence(&self, message: &str) -> (r: u32)
        ensures
            r == winning_confidence(
                rule_views(self.change_patterns@),
                rule_hits(rule_views(self.change_patterns@), message@),
            ),
    {
        let hits = self.match_counts(message);
        classify_hits(&self.change_patterns, &hits).1
    }

    /// Whether `message` marks a breaking change, whatever its kind.
    pub fn is_breaking_change(&self, message: &str) -> (r: bool)
        ensures
            r == breaking_message(message@),
    {
        let patterns: Vec<&'static str> = vec![
            "(?i)break",
            "(?i)breaking",
            "(?i)!:",
            "(?i)feat!",
            "(?i)deprecate",
            "(?i)remove",
            "(?i)delete",
            "(?i)несовместимый",
            "(?i)критический",
        ];
        assert(literals(patterns@) =~= breaking_patterns());
        let n = count_fixed_hits(patterns, message);
        n > 0
    }

    /// The impact of `commit`, given its kind.
    pub fn determine_impact_level(&self, change_type: &ChangeType, commit: &GitCommit) -> (r:
        ImpactLevel)
        ensures
            r == impact_of(*change_type, commit.insertions, commit.deletions),
    {
        impact_level(*change_type, commit.insertions, commit.deletions)
    }

    /// The areas that `message` names: a scope in brackets, a source path, a
    /// source file, a module. Possibly none.
    pub fn extract_affected_areas(&self, message: &str) -> (r: Vec<String>)
        ensures
            strings(r@) == found_areas(area_patterns(), message@),
    {
        let patterns: Vec<&'static str> = vec![
            r"\(([^)]+)\)",
            r"src/([a-zA-Z0-9_/]+)",
            r"([a-zA-Z0-9_]+)\.(java|kt|rs|py|js|ts)",
            r"module\s+([a-zA-Z0-9_]+)",
        ];
        let ghost views = literals(patterns@);
        assert(views =~= area_patterns());
        let mut areas: Vec<String> = Vec::new();
        let mut i: usize = 0;
        assert(views.subrange(0, 0) =~= Seq::<Seq<char>>::empty());
        assert(strings(areas@) =~= Seq::<Seq<char>>::empty());
        while i < patterns.len()
            invariant
                i <= patterns.len(),
                views == literals(patterns@),
                strings(areas@) == found_areas(views.subrange(0, i as int), message@),
            decreases patterns.len() - i,
        {
            let ghost before = views.subrange(0, i as int);
            let ghost after = views.subrange(0, i + 1);
            assert(after.drop_last() =~= before);
            assert(after.last() == patterns@[i as int]@);
            match capture(patterns[i], message, 1) {
                Some(area) => {
                    let ghost old_areas = areas@;
                    areas.push(area);
                    assert(strings(areas@) =~= strings(old_areas).push(area@));
                },
                None => {},
            }
            i = i + 1;
        }
        assert(views.subrange(0, patterns.len() as int) =~= views);
        areas
    }

    /// The one-line description of a change of kind `change_type`.
    pub fn generate_description(&self, message: &str, change_type: &ChangeType) -> (r: String)
        ensures
            r@ == description_of(message@, *change_type),
    {
        let stripped = replace_first(
            r"^(feat|fix|docs|style|refactor|test|chore|build|ci|perf)(\([^)]*\))?:\s*",
            message,
            "",
        );
        proof {
            reveal_strlit("");
            assert(""@ =~= Seq::<char>::empty());
        }
        let text = match stripped {
            Some(t) => to_chars(t.as_str()),
            None => to_chars(message),
        };
        let bare = trim(&text);
        let mut out = to_chars(change_type.emoji());
        append_str(&mut out, ": ");
        if bare.len() == 0 {
            append_str(&mut out, change_type.name());
        } else {
            append(&mut out, &bare);
        }
        from_chars(&out)
    }

    /// Classifies one commit.
    pub fn analyze_commit(&self, commit: &GitCommit) -> (r: ChangeAnalysis)
        ensures
            r.change_type == commit_type(rule_views(self.change_patterns@), commit@),
            r.confidence == winning_confidence(
                rule_views(self.change_patterns@),
                rule_hits(rule_views(self.change_patterns@), commit@.message),
            ),
            strings(r.affected_areas@) == found_areas(area_patterns(), commit@.message),
            r.breaking_changes == breaking_message(commit@.message),
            r.impact_level == commit_impact(rule_views(self.change_patterns@), commit@),
            r.description@ == description_of(commit@.message, r.change_type),
    {
        let message = commit.message.as_str();
        let hits = self.match_counts(message);
        let (change_type, confidence) = classify_hits(&self.change_patterns, &hits);
        let affected_areas = self.extract_affected_areas(message);
        let breaking_changes = self.is_breaking_change(message);
        let impact_level = self.determine_impact_level(&change_type, commit);
        let description = self.generate_description(message, &change_type);
        ChangeAnalysis {
            change_type,
            confidence,
            affected_areas,
            breaking_changes,
            description,
            impact_level,
        }
    }
}

/// The kind of change of commit `c` under `rules`.
pub open spec fn commit_type(rules: Seq<RuleView>, c: CommitRecord) -> ChangeType {
    winning_type(rules, rule_hits(rules, c.message))
}

/// The impact of commit `c` under `rules`.
pub open spec fn commit_impact(rules: Seq<RuleView>, c: CommitRecord) -> ImpactLevel {
    impact_of(commit_type(rules, c), c.insertions, c.deletions)
}

} // verus!
