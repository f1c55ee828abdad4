//! Release tags: the tag record, the reading of tag listings, and the
//! arguments of the commands that create and delete tags.

use vstd::prelude::*;
use crate::dates::{parse_rfc3339, rfc3339_seconds};
use crate::error::{concat, strings, GitError};
use crate::history::{
    commit_date, commit_records, line_stats, parsed_log, read_commit_date, stats_of_line,
    CommandOutput, GitCommit, GitHistory,
};
use crate::pattern::opt_text;
use crate::split::{lines, lines_of, split_on, split_text, texts, trim, trim_text};
use crate::text::{append, append_str, from_chars, slice, starts_with, starts_with_text, to_chars};
use crate::version::{increment_patch, next_patch};

verus! {

/// One tag. `date` counts seconds since 1970-01-01T00:00:00Z.
#[derive(Debug, Clone)]
pub struct GitTag {
    pub name: String,
    pub commit_hash: String,
    pub commit_message: String,
    pub author: String,
    pub date: i64,
    pub is_annotated: bool,
}

/// The mathematical content of a `GitTag`.
pub ghost struct TagRecord {
    pub name: Seq<char>,
    pub commit_hash: Seq<char>,
    pub commit_message: Seq<char>,
    pub author: Seq<char>,
    pub date: i64,
    pub is_annotated: bool,
}

impl View for GitTag {
    type V = TagRecord;

    open spec fn view(&self) -> TagRecord {
        TagRecord {
            name: self.name@,
            commit_hash: self.commit_hash@,
            commit_message: self.commit_message@,
            author: self.author@,
            date: self.date,
            is_annotated: self.is_annotated,
        }
    }
}

/// The views of a sequence of tags.
pub open spec fn tag_records(v: Seq<GitTag>) -> Seq<TagRecord> {
    v.map_values(|t: GitTag| t@)
}

/// The names of a sequence of tags.
pub open spec fn tag_names(v: Seq<TagRecord>) -> Seq<Seq<char>> {
    v.map_values(|t: TagRecord| t.name)
}

/// A listing line describes a tag when it is not blank and NUL splits it
/// into five columns or more.
pub open spec fn is_tag_line(line: Seq<char>) -> bool {
    trim_text(line).len() > 0 && split_text(line, '\0').len() >= 5
}

/// The tag that a listing line describes: name, commit, subject, author and
/// date, each trimmed. Listings do not tell whether a tag is annotated.
pub open spec fn tag_of_line(line: Seq<char>, now: i64) -> TagRecord {
    let parts = split_text(line, '\0');
    TagRecord {
        name: trim_text(parts[0]),
        commit_hash: trim_text(parts[1]),
        commit_message: trim_text(parts[2]),
        author: trim_text(parts[3]),
        date: commit_date(trim_text(parts[4]), now),
        is_annotated: false,
    }
}

/// The tags that the lines of a listing describe, in order.
pub open spec fn tags_of_lines(all: Seq<Seq<char>>, now: i64) -> Seq<TagRecord>
    decreases all.len(),
{
    if all.len() == 0 {
        Seq::empty()
    } else if is_tag_line(all.last()) {
        tags_of_lines(all.drop_last(), now).push(tag_of_line(all.last(), now))
    } else {
        tags_of_lines(all.drop_last(), now)
    }
}

/// The tags that the output of `git tag` lists, in the layout
/// `%(refname:short)`, `%(objectname)`, `%(contents:subject)`,
/// `%(authorname)`, `%(creatordate)` separated by NUL.
pub open spec fn parsed_tags(output: Seq<char>, now: i64) -> Seq<TagRecord> {
    tags_of_lines(lines_of(output), now)
}

/// A trimmed line of `git show` output describes a commit when it is not
/// empty and `|` splits it into four columns or more.
pub open spec fn is_info_line(trimmed: Seq<char>) -> bool {
    trimmed.len() > 0 && split_text(trimmed, '|').len() >= 4
}

/// The first line that describes a commit, trimmed.
pub open spec fn first_info_line(all: Seq<Seq<char>>) -> Option<Seq<char>>
    decreases all.len(),
{
    if all.len() == 0 {
        None
    } else if is_info_line(trim_text(all[0])) {
        Some(trim_text(all[0]))
    } else {
        first_info_line(all.drop_first())
    }
}

/// The tag `name` as the info line `line` describes it.
pub open spec fn tag_of_info(name: Seq<char>, line: Seq<char>, annotated: bool, now: i64) -> TagRecord {
    let parts = split_text(line, '|');
    TagRecord {
        name,
        commit_hash: parts[0],
        commit_message: parts[1],
        author: parts[2],
        date: match rfc3339_seconds(parts[3]) {
            Some(t) => t,
            None => now,
        },
        is_annotated: annotated,
    }
}

/// The first of `names` that begins with `prefix`.
pub open spec fn first_with_prefix(names: Seq<Seq<char>>, prefix: Seq<char>) -> Option<Seq<char>>
    decreases names.len(),
{
    if names.len() == 0 {
        None
    } else if starts_with_text(names[0], prefix) {
        Some(names[0])
    } else {
        first_with_prefix(names.drop_first(), prefix)
    }
}

/// The tag name to use next, given the existing names, newest first:
/// without a tag that begins with `prefix`, the first version `0.1.0`; else
/// the newest such tag with its patch number raised, or `1.0.0` when that
/// tag is not three numbers.
pub open spec fn next_tag_name(prefix: Seq<char>, names: Seq<Seq<char>>) -> Seq<char> {
    match first_with_prefix(names, prefix) {
        None => prefix + "0.1.0"@,
        Some(name) => match next_patch(name.subrange(prefix.len() as int, name.len() as int)) {
            Some(v) => prefix + v,
            None => prefix + "1.0.0"@,
        },
    }
}

/// The arguments of `git tag` that create `tag_name`, annotated when a
/// message is given.
pub open spec fn create_tag_arguments(tag_name: Seq<char>, message: Option<Seq<char>>) -> Seq<
    Seq<char>,
> {
    match message {
        Some(m) => seq!["tag"@, "-a"@, "-m"@, m, tag_name],
        None => seq!["tag"@, tag_name],
    }
}

/// Works on the tags of one repository.
#[derive(Debug, Clone)]
pub struct GitTags {
    pub repository_path: String,
}

impl GitTags {
    /// A tag manager for the repository at `repository_path`.
    pub fn new(repository_path: &str) -> (r: Self)
        ensures
            r.repository_path@ == repository_path@,
    {
        GitTags { repository_path: repository_path.to_owned() }
    }

    /// The tags that the output of `git tag` lists. `now` dates the tags
    /// whose date column cannot be read.
    pub fn parse_tags_output(&self, output: &str, now: i64) -> (r: Vec<GitTag>)
        ensures
            tag_records(r@) == parsed_tags(output@, now),
    {
        let chars = to_chars(output);
        let all = lines(&chars);
        let mut tags: Vec<GitTag> = Vec::new();
        let mut i: usize = 0;
        assert(tag_records(tags@) =~= Seq::<TagRecord>::empty());
        assert(texts(all@).subrange(0, 0) =~= Seq::<Seq<char>>::empty());
        while i < all.len()
            invariant
                i <= all.len(),
                tag_records(tags@) == tags_of_lines(texts(all@).subrange(0, i as int), now),
            decreases all.len() - i,
        {
            let ghost before = texts(all@).subrange(0, i as int);
            let ghost after = texts(all@).subrange(0, i + 1);
            assert(after.drop_last() =~= before);
            assert(after.last() == all@[i as int]@);
            let line = &all[i];
            if trim(line).len() != 0 {
                let parts = split_on(line, '\0');
                if parts.len() >= 5 {
                    assert(texts(parts@)[0] == parts@[0]@);
                    assert(texts(parts@)[1] == parts@[1]@);
                    assert(texts(parts@)[2] == parts@[2]@);
                    assert(texts(parts@)[3] == parts@[3]@);
                    assert(texts(parts@)[4] == parts@[4]@);
                    let date_text = from_chars(&trim(&parts[4]));
                    let tag = GitTag {
                        name: from_chars(&trim(&parts[0])),
                        commit_hash: from_chars(&trim(&parts[1])),
                        commit_message: from_chars(&trim(&parts[2])),
                        author: from_chars(&trim(&parts[3])),
                        date: read_commit_date(date_text.as_str(), now),
                        is_annotated: false,
                    };
                    let ghost old_tags = tags@;
                    tags.push(tag);
                    assert(tag_records(tags@) =~= tag_records(old_tags).push(tag@));
                }
            }
            i = i + 1;
        }
        assert(texts(all@).subrange(0, all.len() as int) =~= texts(all@));
        tags
    }

    /// The tags that a finished `git tag` reports, or the error that its
    /// failure amounts to.
    pub fn get_all_tags(&self, output: &CommandOutput, now: i64) -> (r: Result<Vec<GitTag>, GitError>)
        ensures
            output.success ==> (r matches Ok(tags) && tag_records(tags@) == parsed_tags(
                output.stdout@,
                now,
            )),
            !output.success ==> (r matches Err(GitError::CommandFailed { command, message })
                && command@ == "git tag"@ && message@ == "Git tag завершился с ошибкой: "@
                + output.stderr@),
    {
        if !output.success {
            return Err(
                GitError::CommandFailed {
                    command: "git tag".to_owned(),
                    message: concat("Git tag завершился с ошибкой: ", output.stderr.as_str()),
                },
            );
        }
        Ok(self.parse_tags_output(output.stdout.as_str(), now))
    }

    /// The name of the latest tag, as a finished `git describe --tags
    /// --abbrev=0` reports it: its trimmed output; none when the command
    /// failed or printed nothing.
    pub fn get_latest_tag(&self, output: &CommandOutput) -> (r: Option<String>)
        ensures
            opt_text(r) == if output.success && trim_text(output.stdout@).len() > 0 {
                Some(trim_text(output.stdout@))
            } else {
                None
            },
    {
        if !output.success {
            return None;
        }
        let name = trim(&to_chars(output.stdout.as_str()));
        if name.len() == 0 {
            None
        } else {
            Some(from_chars(&name))
        }
    }

    /// The tag `tag_name` as a finished `git show -s --pretty=%H|%s|%an|%cI`
    /// describes it. `is_annotated` says whether the tag is an object of
    /// its own; `now` dates a tag whose date cannot be read.
    pub fn get_tag_info(
        &self,
        tag_name: &str,
        output: &CommandOutput,
        is_annotated: bool,
        now: i64,
    ) -> (r: Result<GitTag, GitError>)
        ensures
            !output.success ==> (r matches Err(GitError::CommandFailed { command, message })
                && command@ == "git show"@ && message@ == "Не удалось получить информацию о теге "@
                + tag_name@ + ": "@ + output.stderr@),
            output.success ==> match first_info_line(lines_of(output.stdout@)) {
                Some(line) => r matches Ok(tag) && tag@ == tag_of_info(
                    tag_name@,
                    line,
                    is_annotated,
                    now,
                ),
                None => r matches Err(GitError::ParseError { output: text }) && text@
                    == "Пустой или некорректный ответ от git show для тега "@ + tag_name@ + ": "@
                    + trim_text(output.stdout@),
            },
    {
        if !output.success {
            let mut message = to_chars("Не удалось получить информацию о теге ");
            append_str(&mut message, tag_name);
            append_str(&mut message, ": ");
            append_str(&mut message, output.stderr.as_str());
            return Err(
                GitError::CommandFailed {
                    command: "git show".to_owned(),
                    message: from_chars(&message),
                },
            );
        }
        let chars = to_chars(output.stdout.as_str());
        let all = lines(&chars);
        let mut i: usize = 0;
        assert(texts(all@).subrange(0, all.len() as int) =~= texts(all@));
        while i < all.len()
            invariant
                i <= all.len(),
                output.success,
                chars@ == output.stdout@,
                texts(all@) == lines_of(output.stdout@),
                first_info_line(texts(all@)) == first_info_line(
                    texts(all@).subrange(i as int, all.len() as int),
                ),
            decreases all.len() - i,
        {
            let ghost rest = texts(all@).subrange(i as int, all.len() as int);
            assert(rest[0] == all@[i as int]@);
            assert(rest.drop_first() =~= texts(all@).subrange(i + 1, all.len() as int));
            let line = trim(&all[i]);
            if line.len() > 0 {
                let parts = split_on(&line, '|');
                if parts.len() >= 4 {
                    assert(texts(parts@)[0] == parts@[0]@);
                    assert(texts(parts@)[1] == parts@[1]@);
                    assert(texts(parts@)[2] == parts@[2]@);
                    assert(texts(parts@)[3] == parts@[3]@);
                    let date_text = from_chars(&parts[3]);
                    let date = match parse_rfc3339(date_text.as_str()) {
                        Some(t) => t,
                        None => now,
                    };
                    return Ok(
                        GitTag {
                            name: tag_name.to_owned(),
                            commit_hash: from_chars(&parts[0]),
                            commit_message: from_chars(&parts[1]),
                            author: from_chars(&parts[2]),
                            date,
                            is_annotated,
                        },
                    );
                }
            }
            i = i + 1;
        }
        let mut text = to_chars("Пустой или некорректный ответ от git show для тега ");
        append_str(&mut text, tag_name);
        append_str(&mut text, ": ");
        append(&mut text, &trim(&chars));
        Err(GitError::ParseError { output: from_chars(&text) })
    }

    /// The arguments of `git tag` that create `tag_name`.
    pub fn create_tag(&self, tag_name: &str, message: Option<&str>) -> (r: Vec<String>)
        ensures
            strings(r@) == create_tag_arguments(tag_name@, crate::history::opt_str(message)),
    {
        let mut args: Vec<String> = Vec::new();
        args.push("tag".to_owned());
        match message {
            Some(m) => {
                args.push("-a".to_owned());
                args.push("-m".to_owned());
                args.push(m.to_owned());
            },
            None => {},
        }
        args.push(tag_name.to_owned());
        assert(strings(args@) =~= create_tag_arguments(
            tag_name@,
            crate::history::opt_str(message),
        ));
        args
    }

    /// The arguments of `git tag` that delete `tag_name`.
    pub fn delete_tag(&self, tag_name: &str) -> (r: Vec<String>)
        ensures
            strings(r@) == seq!["tag"@, "-d"@, tag_name@],
    {
        let mut args: Vec<String> = Vec::new();
        args.push("tag".to_owned());
        args.push("-d".to_owned());
        args.push(tag_name.to_owned());
        assert(strings(args@) =~= seq!["tag"@, "-d"@, tag_name@]);
        args
    }

    /// The commits between two tags, as a finished `git log` reports them.
    pub fn get_commits_between_tags(&self, output: &CommandOutput, now: i64) -> (r: Result<
        Vec<GitCommit>,
        GitError,
    >)
        ensures
            output.success ==> (r matches Ok(commits) && commit_records(commits@) == parsed_log(
                output.stdout@,
                now,
            )),
            !output.success ==> (r matches Err(GitError::CommandFailed { command, message })
                && command@ == "git log"@ && message@
                == "Не удалось получить коммиты между тегами: "@ + output.stderr@),
    {
        if !output.success {
            return Err(
                GitError::CommandFailed {
                    command: "git log".to_owned(),
                    message: concat(
                        "Не удалось получить коммиты между тегами: ",
                        output.stderr.as_str(),
                    ),
                },
            );
        }
        Ok(self.parse_git_log(output.stdout.as_str(), now))
    }

    /// The tag name to use next, given the existing tags, newest first.
    pub fn suggest_next_version(&self, current_pattern: &str, tags: &Vec<GitTag>) -> (r: String)
        ensures
            r@ == next_tag_name(current_pattern@, tag_names(tag_records(tags@))),
    {
        let prefix = to_chars(current_pattern);
        let ghost names = tag_names(tag_records(tags@));
        let mut i: usize = 0;
        assert(names.subrange(0, tags.len() as int) =~= names);
        while i < tags.len()
            invariant
                i <= tags.len(),
                prefix@ == current_pattern@,
                names == tag_names(tag_records(tags@)),
                first_with_prefix(names, prefix@) == first_with_prefix(
                    names.subrange(i as int, tags.len() as int),
                    prefix@,
                ),
            decreases tags.len() - i,
        {
            let ghost rest = names.subrange(i as int, tags.len() as int);
            assert(rest[0] == tags@[i as int].name@);
            assert(rest.drop_first() =~= names.subrange(i + 1, tags.len() as int));
            let name = to_chars(tags[i].name.as_str());
            if starts_with(&name, &prefix) {
                let number = slice(&name, prefix.len(), name.len());
                let mut out = to_chars(current_pattern);
                match increment_patch(from_chars(&number).as_str()) {
                    Some(v) => append_str(&mut out, v.as_str()),
                    None => append_str(&mut out, "1.0.0"),
                }
                return from_chars(&out);
            }
            i = i + 1;
        }
        concat(current_pattern, "0.1.0")
    }

    /// The version after `version` with the patch number raised by one;
    /// `None` unless `version` is three numbers separated by dots.
    pub fn increment_version(&self, version: &str) -> (r: Option<String>)
        ensures
            opt_text(r) == next_patch(version@),
    {
        increment_patch(version)
    }

    /// The commits that the output of `git log` lists.
    pub fn parse_git_log(&self, log_output: &str, now: i64) -> (r: Vec<GitCommit>)
        ensures
            commit_records(r@) == parsed_log(log_output@, now),
    {
        GitHistory::new(self.repository_path.as_str()).parse_git_log(log_output, now)
    }

    /// Insertions and deletions that one `--numstat` line reports.
    pub fn parse_file_stats_line(&self, line: &str) -> (r: Option<(u32, u32)>)
        ensures
            r == line_stats(line@),
    {
        let chars = to_chars(line);
        stats_of_line(&chars)
    }

    /// Whether any of `tags` is named `v` followed by `version`.
    pub fn tag_exists(version: &str, tags: &Vec<GitTag>) -> (r: bool)
        ensures
            r == tag_names(tag_records(tags@)).contains("v"@ + version@),
    {
        let wanted = to_chars(concat("v", version).as_str());
        let ghost names = tag_names(tag_records(tags@));
        let mut i: usize = 0;
        while i < tags.len()
            invariant
                i <= tags.len(),
                wanted@ == "v"@ + version@,
                names == tag_names(tag_records(tags@)),
                forall|j: int| 0 <= j < i ==> names[j] != wanted@,
            decreases tags.len() - i,
        {
            let name = to_chars(tags[i].name.as_str());
            if crate::text::same_text(&name, &wanted) {
                assert(names[i as int] == wanted@);
                return true;
            }
            i = i + 1;
        }
        false
    }
}

/// The layout in which `git tag` is asked to write each tag.
pub open spec fn tag_layout() -> Seq<char> {
    "--format=%(refname:short)%00%(objectname)%00%(contents:subject)%00%(authorname)%00%(creatordate)"@
}

impl GitTags {
    /// The arguments of `git` that list all tags, newest version first.
    pub fn all_tags_arguments(&self) -> (r: Vec<String>)
        ensures
            strings(r@) == seq!["tag"@, "--sort=-version:refname"@, tag_layout()],
    {
        let mut args: Vec<String> = Vec::new();
        args.push("tag".to_owned());
        args.push("--sort=-version:refname".to_owned());
        args.push(
            "--format=%(refname:short)%00%(objectname)%00%(contents:subject)%00%(authorname)%00%(creatordate)".to_owned(),
        );
        assert(strings(args@) =~= seq!["tag"@, "--sort=-version:refname"@, tag_layout()]);
        args
    }

    /// The arguments of `git` that name the latest tag.
    pub fn latest_tag_arguments(&self) -> (r: Vec<String>)
        ensures
            strings(r@) == seq!["describe"@, "--tags"@, "--abbrev=0"@],
    {
        let mut args: Vec<String> = Vec::new();
        args.push("describe".to_owned());
        args.push("--tags".to_owned());
        args.push("--abbrev=0".to_owned());
        assert(strings(args@) =~= seq!["describe"@, "--tags"@, "--abbrev=0"@]);
        args
    }

    /// The arguments of `git` that describe the commit of `tag_name`.
    pub fn tag_info_arguments(&self, tag_name: &str) -> (r: Vec<String>)
        ensures
            strings(r@) == seq![
                "show"@,
                "-s"@,
                "--no-patch"@,
                "--pretty=%H|%s|%an|%cI"@,
                tag_name@,
            ],
    {
        let mut args: Vec<String> = Vec::new();
        args.push("show".to_owned());
        args.push("-s".to_owned());
        args.push("--no-patch".to_owned());
        args.push("--pretty=%H|%s|%an|%cI".to_owned());
        args.push(tag_name.to_owned());
        assert(strings(args@) =~= seq![
            "show"@,
            "-s"@,
            "--no-patch"@,
            "--pretty=%H|%s|%an|%cI"@,
            tag_name@,
        ]);
        args
    }

    /// The arguments of `git` that succeed when `tag_name` is a tag.
    pub fn is_annotated_tag(&self, tag_name: &str) -> (r: Vec<String>)
        ensures
            strings(r@) == seq!["cat-file"@, "-p"@, "refs/tags/"@ + tag_name@],
    {
        let mut args: Vec<String> = Vec::new();
        args.push("cat-file".to_owned());
        args.push("-p".to_owned());
        args.push(concat("refs/tags/", tag_name));
        assert(strings(args@) =~= seq!["cat-file"@, "-p"@, "refs/tags/"@ + tag_name@]);
        args
    }

    /// What to read for the commits since the last tag: the range from that
    /// tag to `HEAD`, or the latest ten commits when there is no tag.
    pub fn get_commits_since_last_tag(&self, latest_tag: Option<&str>) -> (r: Vec<String>)
        ensures
            strings(r@) == match latest_tag {
                Some(t) => seq![
                    "log"@,
                    crate::history::log_layout(),
                    "--numstat"@,
                    t@ + ".."@ + "HEAD"@,
                ],
                None => seq![
                    "log"@,
                    crate::history::log_layout(),
                    "--numstat"@,
                    "-"@ + crate::number::decimal_text(10),
                ],
            },
    {
        let history = GitHistory::new(self.repository_path.as_str());
        match latest_tag {
            Some(t) => {
                let args = history.get_commits_between(Some(t), Some("HEAD"));
                args
            },
            None => history.get_recent_commits(10),
        }
    }
}

} // verus!
