//! Reading the content generator's release notes and version suggestions.

use vstd::prelude::*;
use crate::content::VersionAnalysis;
use crate::error::strings;
use crate::releaser::GeneratedReleaseNotes;
use crate::split::{join, join_text, lines, lines_of, texts, trim, trim_text};
use crate::text::{
    append_str, contains_str, contains_text, find, from_chars, is_first_occurrence, lowercase,
    lowercase_of, matches_at, occurs_at, slice, starts_with_str, starts_with_text, to_chars,
};

verus! {

/// A mark that sets a title off: `#` or one of the two pictograms.
pub open spec fn is_title_mark(c: char) -> bool {
    c == '#' || c == '🎉' || c == '🚀'
}

/// A mark that begins a list item.
pub open spec fn is_item_mark(c: char) -> bool {
    c == '•' || c == '-' || c == '*'
}

/// `s` without title marks.
pub open spec fn without_title_marks(s: Seq<char>) -> Seq<char>
    decreases s.len(),
{
    if s.len() == 0 {
        s
    } else if is_title_mark(s.last()) {
        without_title_marks(s.drop_last())
    } else {
        without_title_marks(s.drop_last()).push(s.last())
    }
}

/// `s` without the item marks that it begins with.
pub open spec fn without_item_marks(s: Seq<char>) -> Seq<char>
    decreases s.len(),
{
    if s.len() > 0 && is_item_mark(s[0]) {
        without_item_marks(s.drop_first())
    } else {
        s
    }
}

/// Some character of `s` is one of the two pictograms of a title.
pub open spec fn has_pictogram(s: Seq<char>) -> bool {
    contains_text(s, "🎉"@) || contains_text(s, "🚀"@)
}

/// What a trimmed line of release notes is.
pub ghost enum NoteLine {
    Title(Seq<char>),
    Highlight(Seq<char>),
    Blank,
    Body(Seq<char>),
}

/// What the trimmed line `line` is: a title when it begins with `#` or
/// holds a pictogram, a highlight when it begins with an item mark.
pub open spec fn note_line(line: Seq<char>) -> NoteLine {
    if starts_with_text(line, "#"@) || has_pictogram(line) {
        NoteLine::Title(trim_text(without_title_marks(line)))
    } else if line.len() > 0 && is_item_mark(line[0]) {
        NoteLine::Highlight(trim_text(without_item_marks(line)))
    } else if line.len() == 0 {
        NoteLine::Blank
    } else {
        NoteLine::Body(line)
    }
}

/// Reading state of release notes: the last title, the highlights and the
/// lines of the body.
pub ghost struct NotesState {
    pub title: Seq<char>,
    pub highlights: Seq<Seq<char>>,
    pub body: Seq<Seq<char>>,
}

/// The reading state after all of `all`.
pub open spec fn notes_state(all: Seq<Seq<char>>) -> NotesState
    decreases all.len(),
{
    if all.len() == 0 {
        NotesState {
            title: "Вышла новая версия плагина"@,
            highlights: Seq::empty(),
            body: Seq::empty(),
        }
    } else {
        let st = notes_state(all.drop_last());
        match note_line(trim_text(all.last())) {
            NoteLine::Title(t) => NotesState { title: t, ..st },
            NoteLine::Highlight(h) => NotesState { highlights: st.highlights.push(h), ..st },
            NoteLine::Blank => st,
            NoteLine::Body(b) => NotesState { body: st.body.push(b), ..st },
        }
    }
}

/// Title, highlights and body of release notes. A title that came out
/// empty is replaced by the standard one.
pub open spec fn parsed_notes(notes: Seq<char>) -> (Seq<char>, Seq<Seq<char>>, Seq<char>) {
    let st = notes_state(lines_of(notes));
    (
        if st.title.len() == 0 {
            "🎉 Вышла новая версия плагина"@
        } else {
            st.title
        },
        st.highlights,
        join_text(st.body, "\n"@),
    )
}

/// `s` without title marks.
pub fn strip_title_marks(s: &Vec<char>) -> (r: Vec<char>)
    ensures
        r@ == without_title_marks(s@),
{
    let mut out: Vec<char> = Vec::new();
    let mut i: usize = 0;
    assert(s@.subrange(0, 0) =~= Seq::<char>::empty());
    while i < s.len()
        invariant
            i <= s.len(),
            out@ == without_title_marks(s@.subrange(0, i as int)),
        decreases s.len() - i,
    {
        assert(s@.subrange(0, i + 1).drop_last() =~= s@.subrange(0, i as int));
        let c = s[i];
        if !(c == '#' || c == '🎉' || c == '🚀') {
            out.push(c);
        }
        i = i + 1;
    }
    assert(s@.subrange(0, s.len() as int) =~= s@);
    out
}

/// `s` without the item marks that it begins with.
pub fn strip_item_marks(s: &Vec<char>) -> (r: Vec<char>)
    ensures
        r@ == without_item_marks(s@),
{
    let mut a: usize = 0;
    assert(s@.subrange(0, s.len() as int) =~= s@);
    while a < s.len() && (s[a] == '•' || s[a] == '-' || s[a] == '*')
        invariant
            a <= s.len(),
            without_item_marks(s@) == without_item_marks(s@.subrange(a as int, s.len() as int)),
        decreases s.len() - a,
    {
        assert(s@.subrange(a as int, s.len() as int).drop_first() =~= s@.subrange(
            a + 1,
            s.len() as int,
        ));
        a = a + 1;
    }
    slice(s, a, s.len())
}

/// Title, highlights and body of release notes.
pub fn parse_release_notes(notes: &str) -> (r: (String, Vec<String>, String))
    ensures
        r.0@ == parsed_notes(notes@).0,
        strings(r.1@) == parsed_notes(notes@).1,
        r.2@ == parsed_notes(notes@).2,
{
    let all = lines(&to_chars(notes));
    let mut title = to_chars("Вышла новая версия плагина");
    let mut highlights: Vec<String> = Vec::new();
    let mut body: Vec<Vec<char>> = Vec::new();
    let mut i: usize = 0;
    assert(texts(all@).subrange(0, 0) =~= Seq::<Seq<char>>::empty());
    assert(strings(highlights@) =~= Seq::<Seq<char>>::empty());
    assert(texts(body@) =~= Seq::<Seq<char>>::empty());
    while i < all.len()
        invariant
            i <= all.len(),
            notes_state(texts(all@).subrange(0, i as int)) == (NotesState {
                title: title@,
                highlights: strings(highlights@),
                body: texts(body@),
            }),
        decreases all.len() - i,
    {
        let ghost before = texts(all@).subrange(0, i as int);
        let ghost after = texts(all@).subrange(0, i + 1);
        assert(after.drop_last() =~= before);
        assert(after.last() == all@[i as int]@);
        let line = trim(&all[i]);
        if starts_with_str(&line, "#") || contains_str(&line, "🎉") || contains_str(&line, "🚀") {
            title = trim(&strip_title_marks(&line));
        } else if line.len() > 0 && (line[0] == '•' || line[0] == '-' || line[0] == '*') {
            let item = from_chars(&trim(&strip_item_marks(&line)));
            let ghost old_items = highlights@;
            highlights.push(item);
            assert(strings(highlights@) =~= strings(old_items).push(item@));
        } else if line.len() > 0 {
            let ghost old_body = body@;
            body.push(line);
            assert(texts(body@) =~= texts(old_body).push(line@));
        }
        i = i + 1;
    }
    assert(texts(all@).subrange(0, all.len() as int) =~= texts(all@));
    if title.len() == 0 {
        title = to_chars("🎉 Вышла новая версия плагина");
    }
    let text = join(&body, &to_chars("\n"));
    (from_chars(&title), highlights, from_chars(&text))
}

/// The release notes that the content generator answered with, in parts.
pub fn read_release_notes(version: &str, response: &str) -> (r: GeneratedReleaseNotes)
    ensures
        r.title@ == parsed_notes(response@).0,
        r.subtitle@ == "Версия "@ + version@ + " теперь доступна!"@,
        strings(r.highlights@) == parsed_notes(response@).1,
        r.body@ == parsed_notes(response@).2,
        r.version@ == version@,
{
    let (title, highlights, body) = parse_release_notes(response);
    let mut subtitle = to_chars("Версия ");
    append_str(&mut subtitle, version);
    append_str(&mut subtitle, " теперь доступна!");
    GeneratedReleaseNotes {
        title,
        subtitle: from_chars(&subtitle),
        highlights,
        body,
        version: version.to_owned(),
    }
}

/// The kinds of change that a history mentions: features, fixes, breaking
/// changes, by key words in any case; `other` when it mentions none.
pub open spec fn mentioned_types(log: Seq<char>) -> Seq<Seq<char>> {
    let low = lowercase_of(log);
    let found = (if contains_text(low, "feat"@) {
        seq!["feature"@]
    } else {
        Seq::empty()
    }) + (if contains_text(low, "fix"@) {
        seq!["fix"@]
    } else {
        Seq::empty()
    }) + (if contains_text(low, "break"@) || contains_text(low, "breaking"@) {
        seq!["breaking"@]
    } else {
        Seq::empty()
    });
    if found.len() == 0 {
        seq!["other"@]
    } else {
        found
    }
}

/// The kinds of change that a history mentions, as they are named to the
/// content generator.
pub open spec fn named_types(log: Seq<char>) -> Seq<Seq<char>> {
    let low = lowercase_of(log);
    (if contains_text(low, "feat"@) || contains_text(low, "добавлен"@) {
        seq!["features"@]
    } else {
        Seq::empty()
    }) + (if contains_text(low, "fix"@) || contains_text(low, "исправлен"@) {
        seq!["fixes"@]
    } else {
        Seq::empty()
    }) + (if contains_text(low, "break"@) || contains_text(low, "breaking"@) {
        seq!["breaking_changes"@]
    } else {
        Seq::empty()
    })
}

/// How often `p` occurs in `s`, occurrences that overlap an earlier one
/// not counted. `p` is not empty.
pub open spec fn occurrence_count(s: Seq<char>, p: Seq<char>) -> nat
    decreases s.len(),
{
    if p.len() == 0 || s.len() < p.len() {
        0
    } else if occurs_at(s, p, 0) {
        1 + occurrence_count(s.subrange(p.len() as int, s.len() as int), p)
    } else {
        occurrence_count(s.subrange(1, s.len() as int), p)
    }
}

/// The kinds of change that a history mentions.
pub fn extract_change_types(git_log: &str) -> (r: Vec<String>)
    ensures
        strings(r@) == mentioned_types(git_log@),
{
    let low = to_chars(lowercase(git_log).as_str());
    let mut types: Vec<String> = Vec::new();
    if contains_str(&low, "feat") {
        types.push("feature".to_owned());
    }
    if contains_str(&low, "fix") {
        types.push("fix".to_owned());
    }
    if contains_str(&low, "break") || contains_str(&low, "breaking") {
        types.push("breaking".to_owned());
    }
    if types.len() == 0 {
        types.push("other".to_owned());
    }
    assert(strings(types@) =~= mentioned_types(git_log@));
    types
}

/// The kinds of change that a history mentions, named for the content
/// generator and separated by commas.
pub fn analyze_change_types(git_log: &str) -> (r: String)
    ensures
        r@ == join_text(named_types(git_log@), ", "@),
{
    let low = to_chars(lowercase(git_log).as_str());
    let mut types: Vec<Vec<char>> = Vec::new();
    if contains_str(&low, "feat") || contains_str(&low, "добавлен") {
        types.push(to_chars("features"));
    }
    if contains_str(&low, "fix") || contains_str(&low, "исправлен") {
        types.push(to_chars("fixes"));
    }
    if contains_str(&low, "break") || contains_str(&low, "breaking") {
        types.push(to_chars("breaking_changes"));
    }
    assert(texts(types@) =~= named_types(git_log@));
    from_chars(&join(&types, &to_chars(", ")))
}

/// How often `p` occurs in `s`, overlapping occurrences not counted.
pub fn count_occurrences(s: &Vec<char>, p: &Vec<char>) -> (r: usize)
    ensures
        r == occurrence_count(s@, p@),
{
    if p.len() == 0 {
        return 0;
    }
    let mut count: usize = 0;
    let mut i: usize = 0;
    assert(s@.subrange(0, s.len() as int) =~= s@);
    while i < s.len() && s.len() - i >= p.len()
        invariant
            i <= s.len(),
            p.len() > 0,
            count <= i,
            count + occurrence_count(s@.subrange(i as int, s.len() as int), p@) == occurrence_count(
                s@,
                p@,
            ),
        decreases s.len() - i,
    {
        let ghost rest = s@.subrange(i as int, s.len() as int);
        let found = matches_at(s, p, i);
        proof {
            assert(rest.subrange(0, p.len() as int) =~= s@.subrange(i as int, i + p.len()));
            assert(occurs_at(rest, p@, 0) == found);
            assert(rest.subrange(p.len() as int, rest.len() as int) =~= s@.subrange(
                i + p.len(),
                s.len() as int,
            ));
            assert(rest.subrange(1, rest.len() as int) =~= s@.subrange(i + 1, s.len() as int));
        }
        if found {
            count = count + 1;
            i = i + p.len();
        } else {
            i = i + 1;
        }
    }
    count
}

/// How many breaking changes a history tells of: the occurrences of
/// `break` and those of `breaking`, case ignored.
pub fn count_breaking_changes(git_log: &str) -> (r: usize)
    ensures
        r == if occurrence_count(lowercase_of(git_log@), "break"@) + occurrence_count(
            lowercase_of(git_log@),
            "breaking"@,
        ) > usize::MAX {
            usize::MAX as nat
        } else {
            occurrence_count(lowercase_of(git_log@), "break"@) + occurrence_count(
                lowercase_of(git_log@),
                "breaking"@,
            )
        },
{
    let low = to_chars(lowercase(git_log).as_str());
    let a = count_occurrences(&low, &to_chars("break"));
    let b = count_occurrences(&low, &to_chars("breaking"));
    if a > usize::MAX - b {
        usize::MAX
    } else {
        a + b
    }
}

/// The suggestion that an answer of the form `version: reasons` makes.
/// An answer without colon suggests `1.0.0` with little confidence.
pub fn parse_version_suggestion(response: &str, git_log: &str) -> (r: VersionAnalysis)
    ensures
        contains_text(response@, ":"@) ==> (exists|i: int|
            is_first_occurrence(response@, ":"@, i) && r.suggested_version@ == trim_text(
                response@.subrange(0, i),
            ) && r.reasoning@ == trim_text(response@.subrange(i + 1, response@.len() as int)))
            && r.confidence == 80 && strings(r.change_types@) == mentioned_types(git_log@),
        !contains_text(response@, ":"@) ==> r.suggested_version@ == "1.0.0"@ && r.reasoning@
            == response@ && r.confidence == 50 && strings(r.change_types@) == seq!["other"@],
{
    let text = to_chars(response);
    let colon = to_chars(":");
    proof {
        reveal_strlit(":");
    }
    match find(&text, &colon) {
        Some(i) => {
            let version = trim(&slice(&text, 0, i));
            let reasoning = trim(&slice(&text, i + 1, text.len()));
            VersionAnalysis {
                suggested_version: from_chars(&version),
                reasoning: from_chars(&reasoning),
                confidence: 80,
                change_types: extract_change_types(git_log),
            }
        },
        None => {
            let mut other: Vec<String> = Vec::new();
            other.push("other".to_owned());
            assert(strings(other@) =~= seq!["other"@]);
            VersionAnalysis {
                suggested_version: "1.0.0".to_owned(),
                reasoning: response.to_owned(),
                confidence: 50,
                change_types: other,
            }
        },
    }
}

} // verus!
