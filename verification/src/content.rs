//! Generated content: what the content generator is asked with, and how
//! its answers are read.

use vstd::prelude::*;
use crate::error::strings;
use crate::pattern::opt_text;
use crate::split::{lines, lines_of, texts, trim, trim_text};
use crate::text::{
    contains_str, contains_text, from_chars, slice, starts_with_str, starts_with_text, to_chars,
};

verus! {

/// The versions and the history that content is generated from.
#[derive(Debug, Clone)]
pub struct VersionInfo {
    pub current_version: String,
    pub new_version: Option<String>,
    pub branch: String,
    pub git_log: Option<String>,
    pub changes_count: usize,
}

/// A suggested version with its reasons. `confidence` is in percent.
#[derive(Debug, Clone)]
pub struct VersionAnalysis {
    pub suggested_version: String,
    pub reasoning: String,
    pub confidence: u32,
    pub change_types: Vec<String>,
}

/// One section of a changelog.
#[derive(Debug, Clone)]
pub struct ChangelogSection {
    pub title: String,
    pub changes: Vec<String>,
    pub emoji: String,
}

/// A generated changelog, whole and in sections.
#[derive(Debug, Clone)]
pub struct GeneratedChangelog {
    pub version: String,
    pub changelog: String,
    pub sections: Vec<ChangelogSection>,
    pub total_changes: usize,
}

/// The mathematical content of a `ChangelogSection`.
pub ghost struct SectionView {
    pub title: Seq<char>,
    pub changes: Seq<Seq<char>>,
    pub emoji: Seq<char>,
}

impl View for ChangelogSection {
    type V = SectionView;

    open spec fn view(&self) -> SectionView {
        SectionView { title: self.title@, changes: strings(self.changes@), emoji: self.emoji@ }
    }
}

/// The views of a sequence of sections.
pub open spec fn section_views(v: Seq<ChangelogSection>) -> Seq<SectionView> {
    v.map_values(|s: ChangelogSection| s@)
}

/// The heading that a trimmed line opens, if it opens one: features,
/// fixes, improvements or breaking changes, told by a pictogram at its
/// start or by the heading's words.
pub open spec fn heading_of(line: Seq<char>) -> Option<(Seq<char>, Seq<char>)> {
    if starts_with_text(line, "🚀"@) || contains_text(line, "Новые возможности"@) || contains_text(
        line,
        "Новые функции"@,
    ) {
        Some(("🚀 Новые возможности"@, "🚀"@))
    } else if starts_with_text(line, "🐛"@) || contains_text(line, "Исправления"@) {
        Some(("🐛 Исправления"@, "🐛"@))
    } else if starts_with_text(line, "🔧"@) || contains_text(line, "Улучшения"@) {
        Some(("🔧 Улучшения"@, "🔧"@))
    } else if starts_with_text(line, "💥"@) || contains_text(line, "Критические изменения"@) {
        Some(("💥 Критические изменения"@, "💥"@))
    } else {
        None
    }
}

/// The change that a trimmed line lists, if it is a list item.
pub open spec fn bullet_of(line: Seq<char>) -> Option<Seq<char>> {
    if starts_with_text(line, "- "@) || starts_with_text(line, "* "@) {
        Some(line.subrange(2, line.len() as int))
    } else {
        None
    }
}

/// Reading state of a changelog: the sections closed so far and the one
/// still collecting changes.
pub ghost struct SectionsState {
    pub done: Seq<SectionView>,
    pub open: Option<SectionView>,
}

/// The sections of a reading state, the open one last.
pub open spec fn closed_sections(st: SectionsState) -> Seq<SectionView> {
    match st.open {
        Some(s) => st.done.push(s),
        None => st.done,
    }
}

/// The reading state after one more line.
pub open spec fn sections_step(st: SectionsState, raw: Seq<char>) -> SectionsState {
    let line = trim_text(raw);
    match heading_of(line) {
        Some((title, emoji)) => SectionsState {
            done: closed_sections(st),
            open: Some(SectionView { title, changes: Seq::empty(), emoji }),
        },
        None => match (bullet_of(line), st.open) {
            (Some(change), Some(s)) => SectionsState {
                done: st.done,
                open: Some(SectionView { changes: s.changes.push(change), ..s }),
            },
            _ => st,
        },
    }
}

/// The reading state after all of `all`.
pub open spec fn sections_state(all: Seq<Seq<char>>) -> SectionsState
    decreases all.len(),
{
    if all.len() == 0 {
        SectionsState { done: Seq::empty(), open: None }
    } else {
        sections_step(sections_state(all.drop_last()), all.last())
    }
}

/// The changes that the list items among `all` list, in order.
pub open spec fn all_bullets(all: Seq<Seq<char>>) -> Seq<Seq<char>>
    decreases all.len(),
{
    if all.len() == 0 {
        Seq::empty()
    } else {
        match bullet_of(trim_text(all.last())) {
            Some(change) => all_bullets(all.drop_last()).push(change),
            None => all_bullets(all.drop_last()),
        }
    }
}

/// The sections of a changelog. A changelog without headings is one
/// section that holds every list item.
pub open spec fn parsed_sections(changelog: Seq<char>) -> Seq<SectionView> {
    let found = closed_sections(sections_state(lines_of(changelog)));
    if found.len() == 0 {
        seq![
            SectionView {
                title: "📋 Изменения"@,
                changes: all_bullets(lines_of(changelog)),
                emoji: "📋"@,
            },
        ]
    } else {
        found
    }
}

/// The number of changes in all of `sections`.
pub open spec fn total_changes(sections: Seq<SectionView>) -> nat
    decreases sections.len(),
{
    if sections.len() == 0 {
        0
    } else {
        total_changes(sections.drop_last()) + sections.last().changes.len()
    }
}

/// The heading that a trimmed line opens, if it opens one.
pub fn heading(line: &Vec<char>) -> (r: Option<(&'static str, &'static str)>)
    ensures
        match r {
            Some((t, e)) => heading_of(line@) == Some((t@, e@)),
            None => heading_of(line@) is None,
        },
{
    if starts_with_str(line, "🚀") || contains_str(line, "Новые возможности") || contains_str(
        line,
        "Новые функции",
    ) {
        Some(("🚀 Новые возможности", "🚀"))
    } else if starts_with_str(line, "🐛") || contains_str(line, "Исправления") {
        Some(("🐛 Исправления", "🐛"))
    } else if starts_with_str(line, "🔧") || contains_str(line, "Улучшения") {
        Some(("🔧 Улучшения", "🔧"))
    } else if starts_with_str(line, "💥") || contains_str(line, "Критические изменения") {
        Some(("💥 Критические изменения", "💥"))
    } else {
        None
    }
}

/// The change that a trimmed line lists, if it is a list item.
pub fn bullet(line: &Vec<char>) -> (r: Option<String>)
    ensures
        opt_text(r) == bullet_of(line@),
{
    if starts_with_str(line, "- ") || starts_with_str(line, "* ") {
        proof {
            reveal_strlit("- ");
            reveal_strlit("* ");
        }
        Some(from_chars(&slice(line, 2, line.len())))
    } else {
        None
    }
}

/// The sections of a changelog.
pub fn parse_changelog_sections(changelog: &str) -> (r: Vec<ChangelogSection>)
    ensures
        section_views(r@) == parsed_sections(changelog@),
        r@.len() >= 1,
{
    let all = lines(&to_chars(changelog));
    let mut done: Vec<ChangelogSection> = Vec::new();
    let mut open: Option<ChangelogSection> = None;
    let mut bullets: Vec<String> = Vec::new();
    let mut i: usize = 0;
    assert(texts(all@).subrange(0, 0) =~= Seq::<Seq<char>>::empty());
    assert(section_views(done@) =~= Seq::<SectionView>::empty());
    assert(strings(bullets@) =~= Seq::<Seq<char>>::empty());
    while i < all.len()
        invariant
            i <= all.len(),
            sections_state(texts(all@).subrange(0, i as int)) == (SectionsState {
                done: section_views(done@),
                open: match open {
                    Some(s) => Some(s@),
                    None => None,
                },
            }),
            strings(bullets@) == all_bullets(texts(all@).subrange(0, i as int)),
        decreases all.len() - i,
    {
        let ghost before = texts(all@).subrange(0, i as int);
        let ghost after = texts(all@).subrange(0, i + 1);
        assert(after.drop_last() =~= before);
        assert(after.last() == all@[i as int]@);
        let line = trim(&all[i]);
        match bullet(&line) {
            Some(change) => {
                let ghost old_bullets = bullets@;
                bullets.push(change);
                assert(strings(bullets@) =~= strings(old_bullets).push(change@));
            },
            None => {},
        }
        match heading(&line) {
            Some((title, emoji)) => {
                match open {
                    Some(s) => {
                        let ghost old_done = done@;
                        done.push(s);
                        assert(section_views(done@) =~= section_views(old_done).push(s@));
                    },
                    None => {},
                }
                let fresh = ChangelogSection {
                    title: title.to_owned(),
                    changes: Vec::new(),
                    emoji: emoji.to_owned(),
                };
                assert(strings(fresh.changes@) =~= Seq::<Seq<char>>::empty());
                open = Some(fresh);
            },
            None => {
                match (bullet(&line), open) {
                    (Some(change), Some(s)) => {
                        let ChangelogSection { title, changes, emoji } = s;
                        let mut changes = changes;
                        let ghost old_changes = changes@;
                        changes.push(change);
                        assert(strings(changes@) =~= strings(old_changes).push(change@));
                        open = Some(ChangelogSection { title, changes, emoji });
                    },
                    (_, kept) => {
                        open = kept;
                    },
                }
            },
        }
        i = i + 1;
    }
    assert(texts(all@).subrange(0, all.len() as int) =~= texts(all@));
    match open {
        Some(s) => {
            let ghost old_done = done@;
            done.push(s);
            assert(section_views(done@) =~= section_views(old_done).push(s@));
        },
        None => {},
    }
    if done.len() == 0 {
        let only = ChangelogSection {
            title: "📋 Изменения".to_owned(),
            changes: bullets,
            emoji: "📋".to_owned(),
        };
        done.push(only);
        assert(section_views(done@) =~= seq![only@]);
    }
    done
}

/// The number of changes in all of `sections`.
pub fn count_changes(sections: &Vec<ChangelogSection>) -> (r: usize)
    ensures
        r == if total_changes(section_views(sections@)) > usize::MAX {
            usize::MAX as nat
        } else {
            total_changes(section_views(sections@))
        },
{
    let mut total: usize = 0;
    let mut i: usize = 0;
    assert(section_views(sections@).subrange(0, 0) =~= Seq::<SectionView>::empty());
    while i < sections.len()
        invariant
            i <= sections.len(),
            total == if total_changes(section_views(sections@).subrange(0, i as int)) > usize::MAX {
                usize::MAX as nat
            } else {
                total_changes(section_views(sections@).subrange(0, i as int))
            },
        decreases sections.len() - i,
    {
        let ghost before = section_views(sections@).subrange(0, i as int);
        let ghost after = section_views(sections@).subrange(0, i + 1);
        assert(after.drop_last() =~= before);
        assert(after.last() == sections@[i as int]@);
        let n = sections[i].changes.len();
        assert(sections@[i as int]@.changes.len() == n);
        total = if total > usize::MAX - n {
            usize::MAX
        } else {
            total + n
        };
        i = i + 1;
    }
    assert(section_views(sections@).subrange(0, sections.len() as int) =~= section_views(
        sections@,
    ));
    total
}

/// The changelog that the content generator answered with, in sections.
pub fn read_changelog(version_info: &VersionInfo, response: String) -> (r: GeneratedChangelog)
    ensures
        r.version@ == match version_info.new_version {
            Some(v) => v@,
            None => "unknown"@,
        },
        r.changelog == response,
        section_views(r.sections@) == parsed_sections(response@),
        r.total_changes == if total_changes(parsed_sections(response@)) > usize::MAX {
            usize::MAX as nat
        } else {
            total_changes(parsed_sections(response@))
        },
{
    let sections = parse_changelog_sections(response.as_str());
    let total = count_changes(&sections);
    GeneratedChangelog {
        version: match &version_info.new_version {
            Some(v) => v.clone(),
            None => "unknown".to_owned(),
        },
        changelog: response,
        sections,
        total_changes: total,
    }
}

} // verus!
