//! Commit history: the commit record, the reading of `git log` output, and
//! the keyword classification of commit messages.

use vstd::prelude::*;
use crate::dates::{date_text, format_date, formatted_seconds, parse_formatted, parse_rfc3339, rfc3339_seconds};
use crate::error::{concat, GitError};
use crate::number::{parse_decimal, parse_u32, decimal_text};
use crate::split::{lines, lines_of, split_on, split_text, split_whitespace, texts, trim, trim_text, words_of};
use crate::text::{append, append_str, contains_str, contains_text, from_chars, lowercase, lowercase_of, same_text, starts_with_str, starts_with_text, to_chars};

verus! {

/// Whether `c` is a letter or a digit, as `char::is_alphanumeric` tells.
pub uninterp spec fn alphanumeric(c: char) -> bool;

/// `char::is_alphanumeric`: whether the character is a letter or a digit
/// of any script. The result is the named one; nothing else is claimed of
/// it.
#[verifier::external_body]
pub(crate) fn is_alphanumeric(c: char) -> (r: bool)
    ensures
        r == alphanumeric(c),
{
    c.is_alphanumeric()
}

/// Kind of change that a commit makes.
#[derive(Debug, Clone, Copy, PartialEq, Eq, Hash, Structural)]
pub enum ChangeType {
    Feature,
    Fix,
    Breaking,
    Improvement,
    Documentation,
    Testing,
    Refactoring,
    Chore,
    Other,
}

/// The kind of change that a lower-cased commit message tells of, by its
/// conventional prefix or by keywords: the first that fits among breaking
/// change, feature, fix, refactoring, documentation, tests, improvement and
/// chore, in this order.
pub open spec fn message_type(low: Seq<char>) -> ChangeType {
    if contains_text(low, "break"@) || contains_text(low, "breaking"@) || contains_text(
        low,
        "!:"@,
    ) || starts_with_text(low, "feat!"@) {
        ChangeType::Breaking
    } else if starts_with_text(low, "feat"@) || contains_text(low, "добавлен"@) || contains_text(
        low,
        "новый"@,
    ) || contains_text(low, "new feature"@) {
        ChangeType::Feature
    } else if starts_with_text(low, "fix"@) || contains_text(low, "исправлен"@) || contains_text(
        low,
        "фикс"@,
    ) || contains_text(low, "bug"@) {
        ChangeType::Fix
    } else if starts_with_text(low, "refactor"@) || contains_text(low, "рефакторинг"@) {
        ChangeType::Refactoring
    } else if starts_with_text(low, "docs"@) || contains_text(low, "документация"@)
        || contains_text(low, "документацию"@) {
        ChangeType::Documentation
    } else if starts_with_text(low, "test"@) || contains_text(low, "тест"@) {
        ChangeType::Testing
    } else if starts_with_text(low, "improve"@) || starts_with_text(low, "perf"@) || contains_text(
        low,
        "улучшение"@,
    ) {
        ChangeType::Improvement
    } else if starts_with_text(low, "chore"@) || contains_text(low, "обслуживание"@) {
        ChangeType::Chore
    } else {
        ChangeType::Other
    }
}

/// The pictogram shown for a kind of change.
pub open spec fn kind_emoji(t: ChangeType) -> Seq<char> {
    match t {
        ChangeType::Feature => "🚀"@,
        ChangeType::Fix => "🐛"@,
        ChangeType::Breaking => "💥"@,
        ChangeType::Improvement => "🔧"@,
        ChangeType::Documentation => "📝"@,
        ChangeType::Testing => "🧪"@,
        ChangeType::Refactoring => "♻️"@,
        ChangeType::Chore => "🧹"@,
        ChangeType::Other => "📋"@,
    }
}

/// The heading shown for a kind of change.
pub open spec fn kind_name(t: ChangeType) -> Seq<char> {
    match t {
        ChangeType::Feature => "Новые возможности"@,
        ChangeType::Fix => "Исправления"@,
        ChangeType::Breaking => "Критические изменения"@,
        ChangeType::Improvement => "Улучшения"@,
        ChangeType::Documentation => "Документация"@,
        ChangeType::Testing => "Тестирование"@,
        ChangeType::Refactoring => "Рефакторинг"@,
        ChangeType::Chore => "Обслуживание"@,
        ChangeType::Other => "Другое"@,
    }
}

impl ChangeType {
    /// Classifies a commit message by its prefix and keywords, case
    /// ignored.
    pub fn from_message(message: &str) -> (r: Self)
        ensures
            r == message_type(lowercase_of(message@)),
    {
        let lowered = lowercase(message);
        let low = to_chars(lowered.as_str());
        if contains_str(&low, "break") || contains_str(&low, "breaking") || contains_str(&low, "!:")
            || starts_with_str(&low, "feat!") {
            ChangeType::Breaking
        } else if starts_with_str(&low, "feat") || contains_str(&low, "добавлен") || contains_str(
            &low,
            "новый",
        ) || contains_str(&low, "new feature") {
            ChangeType::Feature
        } else if starts_with_str(&low, "fix") || contains_str(&low, "исправлен") || contains_str(
            &low,
            "фикс",
        ) || contains_str(&low, "bug") {
            ChangeType::Fix
        } else if starts_with_str(&low, "refactor") || contains_str(&low, "рефакторинг") {
            ChangeType::Refactoring
        } else if starts_with_str(&low, "docs") || contains_str(&low, "документация")
            || contains_str(&low, "документацию") {
            ChangeType::Documentation
        } else if starts_with_str(&low, "test") || contains_str(&low, "тест") {
            ChangeType::Testing
        } else if starts_with_str(&low, "improve") || starts_with_str(&low, "perf") || contains_str(
            &low,
            "улучшение",
        ) {
            ChangeType::Improvement
        } else if starts_with_str(&low, "chore") || contains_str(&low, "обслуживание") {
            ChangeType::Chore
        } else {
            ChangeType::Other
        }
    }

    /// The pictogram shown for this kind of change.
    pub fn emoji(&self) -> (r: &'static str)
        ensures
            r@ == kind_emoji(*self),
    {
        match self {
            ChangeType::Feature => "🚀",
            ChangeType::Fix => "🐛",
            ChangeType::Breaking => "💥",
            ChangeType::Improvement => "🔧",
            ChangeType::Documentation => "📝",
            ChangeType::Testing => "🧪",
            ChangeType::Refactoring => "♻️",
            ChangeType::Chore => "🧹",
            ChangeType::Other => "📋",
        }
    }

    /// The heading shown for this kind of change.
    pub fn name(&self) -> (r: &'static str)
        ensures
            r@ == kind_name(*self),
    {
        match self {
            ChangeType::Feature => "Новые возможности",
            ChangeType::Fix => "Исправления",
            ChangeType::Breaking => "Критические изменения",
            ChangeType::Improvement => "Улучшения",
            ChangeType::Documentation => "Документация",
            ChangeType::Testing => "Тестирование",
            ChangeType::Refactoring => "Рефакторинг",
            ChangeType::Chore => "Обслуживание",
            ChangeType::Other => "Другое",
        }
    }
}

/// One commit, as read from the history. `date` counts seconds since
/// 1970-01-01T00:00:00Z.
#[derive(Debug, Clone)]
pub struct GitCommit {
    pub hash: String,
    pub short_hash: String,
    pub message: String,
    pub author: String,
    pub email: String,
    pub date: i64,
    pub files_changed: u32,
    pub insertions: u32,
    pub deletions: u32,
}

/// The mathematical content of a `GitCommit`.
pub ghost struct CommitRecord {
    pub hash: Seq<char>,
    pub short_hash: Seq<char>,
    pub message: Seq<char>,
    pub author: Seq<char>,
    pub email: Seq<char>,
    pub date: i64,
    pub files_changed: u32,
    pub insertions: u32,
    pub deletions: u32,
}

impl View for GitCommit {
    type V = CommitRecord;

    open spec fn view(&self) -> CommitRecord {
        CommitRecord {
            hash: self.hash@,
            short_hash: self.short_hash@,
            message: self.message@,
            author: self.author@,
            email: self.email@,
            date: self.date,
            files_changed: self.files_changed,
            insertions: self.insertions,
            deletions: self.deletions,
        }
    }
}

impl GitCommit {
    /// A copy of this commit.
    pub fn duplicate(&self) -> (r: Self)
        ensures
            r@ == self@,
    {
        GitCommit {
            hash: self.hash.clone(),
            short_hash: self.short_hash.clone(),
            message: self.message.clone(),
            author: self.author.clone(),
            email: self.email.clone(),
            date: self.date,
            files_changed: self.files_changed,
            insertions: self.insertions,
            deletions: self.deletions,
        }
    }
}

/// The views of a sequence of commits.
pub open spec fn commit_records(v: Seq<GitCommit>) -> Seq<CommitRecord> {
    v.map_values(|c: GitCommit| c@)
}

/// What a finished process left behind.
#[derive(Debug, Clone)]
pub struct CommandOutput {
    pub success: bool,
    pub stdout: String,
    pub stderr: String,
}

/// `a + b`, held at the largest 32-bit value.
pub open spec fn capped_sum(a: u32, b: u32) -> u32 {
    if a + b > u32::MAX {
        u32::MAX
    } else {
        (a + b) as u32
    }
}

/// The count that one column of a `--numstat` line writes: `-` (a binary
/// file) and anything that is not a number count as zero.
pub open spec fn stat_count(word: Seq<char>) -> u32 {
    if word == "-"@ {
        0
    } else {
        match parse_decimal(word, u32::MAX as nat) {
            Some(v) => v as u32,
            None => 0,
        }
    }
}

/// Insertions and deletions that a `--numstat` line reports: its first two
/// words; `None` when it has fewer.
pub open spec fn line_stats(line: Seq<char>) -> Option<(u32, u32)> {
    let w = words_of(line);
    if w.len() >= 2 {
        Some((stat_count(w[0]), stat_count(w[1])))
    } else {
        None
    }
}

/// The instant that a date column writes: RFC 3339 first, then git's ISO-like
/// layout, else the fallback `now`.
pub open spec fn commit_date(text: Seq<char>, now: i64) -> i64 {
    match rfc3339_seconds(text) {
        Some(t) => t,
        None => match formatted_seconds(text, "%Y-%m-%d %H:%M:%S %z"@) {
            Some(t) => t,
            None => now,
        },
    }
}

/// A line is a commit header when `|` splits it into six columns or more.
pub open spec fn is_header(line: Seq<char>) -> bool {
    split_text(line, '|').len() >= 6
}

/// The commit that a header line opens, before any file statistics.
pub open spec fn header_record(line: Seq<char>, now: i64) -> CommitRecord {
    let parts = split_text(line, '|');
    CommitRecord {
        hash: parts[0],
        short_hash: parts[1],
        message: parts[2],
        author: parts[3],
        email: parts[4],
        date: commit_date(parts[5], now),
        files_changed: 0,
        insertions: 0,
        deletions: 0,
    }
}

/// `c` with one more file of `ins` insertions and `del` deletions.
pub open spec fn with_stats(c: CommitRecord, ins: u32, del: u32) -> CommitRecord {
    CommitRecord {
        files_changed: capped_sum(c.files_changed, 1),
        insertions: capped_sum(c.insertions, ins),
        deletions: capped_sum(c.deletions, del),
        ..c
    }
}

/// Reading state of a log: the commits closed so far and the one still
/// collecting file statistics.
pub ghost struct LogState {
    pub done: Seq<CommitRecord>,
    pub open: Option<CommitRecord>,
}

/// The commits of a reading state, the open one last.
pub open spec fn closed(st: LogState) -> Seq<CommitRecord> {
    match st.open {
        Some(c) => st.done.push(c),
        None => st.done,
    }
}

/// The reading state after one more line.
pub open spec fn log_step(st: LogState, line: Seq<char>, now: i64) -> LogState {
    if trim_text(line).len() == 0 {
        st
    } else if is_header(line) {
        LogState { done: closed(st), open: Some(header_record(line, now)) }
    } else {
        match (st.open, line_stats(line)) {
            (Some(c), Some((ins, del))) => LogState {
                done: st.done,
                open: Some(with_stats(c, ins, del)),
            },
            _ => st,
        }
    }
}

/// The reading state after all of `lines`.
pub open spec fn log_state(lines: Seq<Seq<char>>, now: i64) -> LogState
    decreases lines.len(),
{
    if lines.len() == 0 {
        LogState { done: Seq::empty(), open: None }
    } else {
        log_step(log_state(lines.drop_last(), now), lines.last(), now)
    }
}

/// The commits that a `git log --pretty=format:%H|%h|%s|%an|%ae|%ai
/// --numstat` output lists, in its order.
pub open spec fn parsed_log(log: Seq<char>, now: i64) -> Seq<CommitRecord> {
    closed(log_state(lines_of(log), now))
}

/// The revision range between two optional references.
pub open spec fn range_text(from: Option<Seq<char>>, to: Option<Seq<char>>) -> Seq<char> {
    match (from, to) {
        (Some(f), Some(t)) => f + ".."@ + t,
        (Some(f), None) => f + "..HEAD"@,
        (None, Some(t)) => "HEAD.."@ + t,
        (None, None) => "HEAD"@,
    }
}

/// The view of an optional string slice.
pub open spec fn opt_str(s: Option<&str>) -> Option<Seq<char>> {
    match s {
        Some(t) => Some(t@),
        None => None,
    }
}

/// One changelog line for a commit: `- <short hash> (<date>): <message>` and
/// a line feed.
pub open spec fn changelog_line(c: CommitRecord) -> Seq<char> {
    "- "@ + c.short_hash + " ("@ + date_text(c.date) + "): "@ + c.message + "\n"@
}

/// The changelog lines of `commits`, in order.
pub open spec fn changelog_text(commits: Seq<CommitRecord>) -> Seq<char>
    decreases commits.len(),
{
    if commits.len() == 0 {
        Seq::empty()
    } else {
        changelog_text(commits.drop_last()) + changelog_line(commits.last())
    }
}

/// `a + b`, held at the largest 32-bit value.
pub fn add_capped(a: u32, b: u32) -> (r: u32)
    ensures
        r == capped_sum(a, b),
{
    if a > u32::MAX - b {
        u32::MAX
    } else {
        a + b
    }
}

/// Appends the changelog line of `c` to `out`.
pub fn push_changelog_line(out: &mut Vec<char>, c: &GitCommit)
    ensures
        final(out)@ == old(out)@ + changelog_line(c@),
{
    append_str(out, "- ");
    append_str(out, c.short_hash.as_str());
    append_str(out, " (");
    let day = format_date(c.date);
    append(out, &day);
    append_str(out, "): ");
    append_str(out, c.message.as_str());
    append_str(out, "\n");
    assert(out@ =~= old(out)@ + changelog_line(c@));
}

/// Reads the history of one repository.
#[derive(Debug, Clone)]
pub struct GitHistory {
    pub repository_path: String,
}

impl GitHistory {
    /// A reader for the repository at `repository_path`.
    pub fn new(repository_path: &str) -> (r: Self)
        ensures
            r.repository_path@ == repository_path@,
    {
        GitHistory { repository_path: repository_path.to_owned() }
    }

    /// The revision range that selects the commits between two references.
    pub fn commit_range(from_ref: Option<&str>, to_ref: Option<&str>) -> (r: String)
        ensures
            r@ == range_text(opt_str(from_ref), opt_str(to_ref)),
    {
        match (from_ref, to_ref) {
            (Some(f), Some(t)) => {
                let mut out = to_chars(f);
                append_str(&mut out, "..");
                append_str(&mut out, t);
                from_chars(&out)
            },
            (Some(f), None) => concat(f, "..HEAD"),
            (None, Some(t)) => concat("HEAD..", t),
            (None, None) => "HEAD".to_owned(),
        }
    }

    /// Insertions and deletions that one `--numstat` line reports.
    pub fn parse_file_stats_line(&self, line: &str) -> (r: Option<(u32, u32)>)
        ensures
            r == line_stats(line@),
    {
        let chars = to_chars(line);
        stats_of_line(&chars)
    }

    /// The commits that the output of `git log`, in the layout
    /// `%H|%h|%s|%an|%ae|%ai` with `--numstat`, lists. `now` dates the
    /// commits whose date column cannot be read.
    pub fn parse_git_log(&self, log_output: &str, now: i64) -> (r: Vec<GitCommit>)
        ensures
            commit_records(r@) == parsed_log(log_output@, now),
    {
        let chars = to_chars(log_output);
        let all = lines(&chars);
        let mut done: Vec<GitCommit> = Vec::new();
        let mut open: Option<GitCommit> = None;
        let mut i: usize = 0;
        assert(commit_records(done@) =~= Seq::<CommitRecord>::empty());
        assert(texts(all@).subrange(0, 0) =~= Seq::<Seq<char>>::empty());
        while i < all.len()
            invariant
                i <= all.len(),
                log_state(texts(all@).subrange(0, i as int), now) == (LogState {
                    done: commit_records(done@),
                    open: match open {
                        Some(c) => Some(c@),
                        None => None,
                    },
                }),
            decreases all.len() - i,
        {
            let ghost before = texts(all@).subrange(0, i as int);
            let ghost after = texts(all@).subrange(0, i + 1);
            assert(after.drop_last() =~= before);
            assert(after.last() == all@[i as int]@);
            let line = &all[i];
            let trimmed = trim(line);
            if trimmed.len() != 0 {
                let parts = split_on(line, '|');
                if parts.len() >= 6 {
                    assert(texts(parts@)[0] == parts@[0]@);
                    assert(texts(parts@)[1] == parts@[1]@);
                    assert(texts(parts@)[2] == parts@[2]@);
                    assert(texts(parts@)[3] == parts@[3]@);
                    assert(texts(parts@)[4] == parts@[4]@);
                    assert(texts(parts@)[5] == parts@[5]@);
                    match open {
                        Some(c) => {
                            let ghost old_done = done@;
                            done.push(c);
                            assert(commit_records(done@) =~= commit_records(old_done).push(c@));
                        },
                        None => {},
                    }
                    let date_text = from_chars(&parts[5]);
                    let date = read_commit_date(date_text.as_str(), now);
                    open = Some(
                        GitCommit {
                            hash: from_chars(&parts[0]),
                            short_hash: from_chars(&parts[1]),
                            message: from_chars(&parts[2]),
                            author: from_chars(&parts[3]),
                            email: from_chars(&parts[4]),
                            date,
                            files_changed: 0,
                            insertions: 0,
                            deletions: 0,
                        },
                    );
                } else {
                    match open {
                        Some(c) => {
                            match stats_of_line(line) {
                                Some((ins, del)) => {
                                    open = Some(
                                        GitCommit {
                                            hash: c.hash,
                                            short_hash: c.short_hash,
                                            message: c.message,
                                            author: c.author,
                                            email: c.email,
                                            date: c.date,
                                            files_changed: add_capped(c.files_changed, 1),
                                            insertions: add_capped(c.insertions, ins),
                                            deletions: add_capped(c.deletions, del),
                                        },
                                    );
                                },
                                None => {
                                    open = Some(c);
                                },
                            }
                        },
                        None => {
                            open = None;
                        },
                    }
                }
            }
            i = i + 1;
        }
        assert(texts(all@).subrange(0, all.len() as int) =~= texts(all@));
        match open {
            Some(c) => {
                let ghost old_done = done@;
                done.push(c);
                assert(commit_records(done@) =~= commit_records(old_done).push(c@));
            },
            None => {},
        }
        done
    }

    /// The commits that a finished `git log` reports, or the error that its
    /// failure amounts to.
    pub fn read_log(&self, output: &CommandOutput, now: i64) -> (r: Result<Vec<GitCommit>, GitError>)
        ensures
            output.success ==> (r matches Ok(commits) && commit_records(commits@) == parsed_log(
                output.stdout@,
                now,
            )),
            !output.success ==> (r matches Err(GitError::CommandFailed { command, message })
                && command@ == "git log"@ && message@ == "Git log завершился с ошибкой: "@
                + output.stderr@),
    {
        if !output.success {
            return Err(
                GitError::CommandFailed {
                    command: "git log".to_owned(),
                    message: concat("Git log завершился с ошибкой: ", output.stderr.as_str()),
                },
            );
        }
        Ok(self.parse_git_log(output.stdout.as_str(), now))
    }

    /// A plain changelog: one line for each commit, in order.
    pub fn get_formatted_changelog(&self, commits: &Vec<GitCommit>) -> (r: String)
        ensures
            r@ == changelog_text(commit_records(commits@)),
    {
        let mut out: Vec<char> = Vec::new();
        let mut i: usize = 0;
        assert(commit_records(commits@).subrange(0, 0) =~= Seq::<CommitRecord>::empty());
        while i < commits.len()
            invariant
                i <= commits.len(),
                out@ == changelog_text(commit_records(commits@).subrange(0, i as int)),
            decreases commits.len() - i,
        {
            let ghost before = commit_records(commits@).subrange(0, i as int);
            let ghost after = commit_records(commits@).subrange(0, i + 1);
            assert(after.drop_last() =~= before);
            assert(after.last() == commits@[i as int]@);
            push_changelog_line(&mut out, &commits[i]);
            i = i + 1;
        }
        assert(commit_records(commits@).subrange(0, commits.len() as int) =~= commit_records(
            commits@,
        ));
        from_chars(&out)
    }
}

/// The instant that a date column writes.
pub fn read_commit_date(text: &str, now: i64) -> (r: i64)
    ensures
        r == commit_date(text@, now),
{
    match parse_rfc3339(text) {
        Some(t) => t,
        None => match parse_formatted(text, "%Y-%m-%d %H:%M:%S %z") {
            Some(t) => t,
            None => now,
        },
    }
}

/// The count that one column of a `--numstat` line writes.
pub fn count_of_word(word: &Vec<char>) -> (r: u32)
    ensures
        r == stat_count(word@),
{
    let dash = to_chars("-");
    if same_text(word, &dash) {
        0
    } else {
        match parse_u32(word) {
            Some(v) => v,
            None => 0,
        }
    }
}

/// Insertions and deletions that one `--numstat` line reports.
pub fn stats_of_line(line: &Vec<char>) -> (r: Option<(u32, u32)>)
    ensures
        r == line_stats(line@),
{
    let words = split_whitespace(line);
    if words.len() >= 2 {
        assert(texts(words@)[0] == words@[0]@);
        assert(texts(words@)[1] == words@[1]@);
        Some((count_of_word(&words[0]), count_of_word(&words[1])))
    } else {
        None
    }
}

/// The layout in which `git log` is asked to write each commit.
pub open spec fn log_layout() -> Seq<char> {
    "--pretty=format:%H|%h|%s|%an|%ae|%ai"@
}

/// A character that a version tag may hold.
pub open spec fn is_tag_char(c: char) -> bool {
    alphanumeric(c) || c == '.' || c == '-'
}

/// `name` names a version: it begins with `v` and holds letters, digits,
/// dots and hyphens only.
pub open spec fn is_version_tag(name: Seq<char>) -> bool {
    name.len() > 0 && name[0] == 'v' && forall|i: int|
        0 <= i < name.len() ==> is_tag_char(#[trigger] name[i])
}

/// The version tags among `all`, each trimmed, in order.
pub open spec fn version_tags(all: Seq<Seq<char>>) -> Seq<Seq<char>>
    decreases all.len(),
{
    if all.len() == 0 {
        Seq::empty()
    } else if is_version_tag(trim_text(all.last())) {
        version_tags(all.drop_last()).push(trim_text(all.last()))
    } else {
        version_tags(all.drop_last())
    }
}

/// Whether `name` names a version.
pub fn names_version(name: &Vec<char>) -> (r: bool)
    ensures
        r == is_version_tag(name@),
{
    if name.len() == 0 || name[0] != 'v' {
        return false;
    }
    let mut i: usize = 0;
    while i < name.len()
        invariant
            i <= name.len(),
            name.len() > 0,
            name@[0] == 'v',
            forall|j: int| 0 <= j < i ==> is_tag_char(#[trigger] name@[j]),
        decreases name.len() - i,
    {
        let c = name[i];
        if !(is_alphanumeric(c) || c == '.' || c == '-') {
            return false;
        }
        i = i + 1;
    }
    true
}

impl GitHistory {
    /// The arguments of `git` that list the commits between two
    /// references.
    pub fn get_commits_between(&self, from_ref: Option<&str>, to_ref: Option<&str>) -> (r: Vec<
        String,
    >)
        ensures
            crate::error::strings(r@) == seq![
                "log"@,
                log_layout(),
                "--numstat"@,
                range_text(opt_str(from_ref), opt_str(to_ref)),
            ],
    {
        let mut args: Vec<String> = Vec::new();
        args.push("log".to_owned());
        args.push("--pretty=format:%H|%h|%s|%an|%ae|%ai".to_owned());
        args.push("--numstat".to_owned());
        args.push(Self::commit_range(from_ref, to_ref));
        assert(crate::error::strings(args@) =~= seq![
            "log"@,
            log_layout(),
            "--numstat"@,
            range_text(opt_str(from_ref), opt_str(to_ref)),
        ]);
        args
    }

    /// The arguments of `git` that list the latest `limit` commits.
    pub fn get_recent_commits(&self, limit: u32) -> (r: Vec<String>)
        ensures
            crate::error::strings(r@) == seq![
                "log"@,
                log_layout(),
                "--numstat"@,
                "-"@ + decimal_text(limit as nat),
            ],
    {
        let mut args: Vec<String> = Vec::new();
        args.push("log".to_owned());
        args.push("--pretty=format:%H|%h|%s|%an|%ae|%ai".to_owned());
        args.push("--numstat".to_owned());
        let mut last = to_chars("-");
        crate::number::push_decimal(&mut last, limit as u128);
        args.push(from_chars(&last));
        assert(crate::error::strings(args@) =~= seq![
            "log"@,
            log_layout(),
            "--numstat"@,
            "-"@ + decimal_text(limit as nat),
        ]);
        args
    }

    /// The arguments of `git` that list the commits which touch the files
    /// that `file_patterns` select.
    pub fn get_commits_for_files(&self, file_patterns: &Vec<String>) -> (r: Vec<String>)
        ensures
            crate::error::strings(r@) == seq!["log"@, log_layout(), "--numstat"@, "--"@]
                + crate::error::strings(file_patterns@),
    {
        let mut args: Vec<String> = Vec::new();
        args.push("log".to_owned());
        args.push("--pretty=format:%H|%h|%s|%an|%ae|%ai".to_owned());
        args.push("--numstat".to_owned());
        args.push("--".to_owned());
        let ghost head = crate::error::strings(args@);
        assert(head =~= seq!["log"@, log_layout(), "--numstat"@, "--"@]);
        let mut i: usize = 0;
        while i < file_patterns.len()
            invariant
                i <= file_patterns.len(),
                args.len() == 4 + i,
                head == seq!["log"@, log_layout(), "--numstat"@, "--"@],
                forall|j: int| 0 <= j < 4 ==> (#[trigger] args@[j])@ == head[j],
                forall|j: int| 0 <= j < i ==> (#[trigger] args@[4 + j])@ == file_patterns@[j]@,
            decreases file_patterns.len() - i,
        {
            args.push(file_patterns[i].clone());
            i = i + 1;
        }
        proof {
            let expected = head + crate::error::strings(file_patterns@);
            assert(crate::error::strings(args@).len() == expected.len());
            assert forall|k: int| 0 <= k < expected.len() implies crate::error::strings(args@)[k]
                == expected[k] by {
                if k >= 4 {
                    assert(args@[4 + (k - 4)]@ == file_patterns@[k - 4]@);
                }
            }
            assert(crate::error::strings(args@) =~= expected);
        }
        args
    }

    /// The branch that a finished `git rev-parse --abbrev-ref HEAD` names.
    pub fn get_current_branch(&self, output: &CommandOutput) -> (r: Result<String, GitError>)
        ensures
            output.success ==> (r matches Ok(b) && b@ == trim_text(output.stdout@)),
            !output.success ==> (r matches Err(GitError::CommandFailed { command, message })
                && command@ == "git rev-parse"@ && message@
                == "Не удалось определить текущую ветку"@),
    {
        if !output.success {
            return Err(
                GitError::CommandFailed {
                    command: "git rev-parse".to_owned(),
                    message: "Не удалось определить текущую ветку".to_owned(),
                },
            );
        }
        Ok(from_chars(&trim(&to_chars(output.stdout.as_str()))))
    }

    /// The version tags that a finished `git tag` lists.
    pub fn get_tags(&self, output: &CommandOutput) -> (r: Result<Vec<String>, GitError>)
        ensures
            output.success ==> (r matches Ok(tags) && crate::error::strings(tags@) == version_tags(
                lines_of(output.stdout@),
            )),
            !output.success ==> (r matches Err(GitError::CommandFailed { command, message })
                && command@ == "git tag"@ && message@ == "Не удалось получить список тегов"@),
    {
        if !output.success {
            return Err(
                GitError::CommandFailed {
                    command: "git tag".to_owned(),
                    message: "Не удалось получить список тегов".to_owned(),
                },
            );
        }
        let all = lines(&to_chars(output.stdout.as_str()));
        let mut tags: Vec<String> = Vec::new();
        let mut i: usize = 0;
        assert(texts(all@).subrange(0, 0) =~= Seq::<Seq<char>>::empty());
        assert(crate::error::strings(tags@) =~= Seq::<Seq<char>>::empty());
        while i < all.len()
            invariant
                i <= all.len(),
                crate::error::strings(tags@) == version_tags(texts(all@).subrange(0, i as int)),
            decreases all.len() - i,
        {
            let ghost before = texts(all@).subrange(0, i as int);
            let ghost after = texts(all@).subrange(0, i + 1);
            assert(after.drop_last() =~= before);
            assert(after.last() == all@[i as int]@);
            let name = trim(&all[i]);
            if names_version(&name) {
                let ghost prev = tags@;
                let text = from_chars(&name);
                tags.push(text);
                assert(crate::error::strings(tags@) =~= crate::error::strings(prev).push(text@));
            }
            i = i + 1;
        }
        assert(texts(all@).subrange(0, all.len() as int) =~= texts(all@));
        Ok(tags)
    }
}

} // verus!
