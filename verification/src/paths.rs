//! Slash-separated paths, taken apart into components.
//!
//! A path is read as on Unix: a leading slash is the root component, empty
//! pieces and `.` are skipped, except a `.` that begins a relative path.

use vstd::prelude::*;
use crate::split::{join, join_text, split_on, split_text, texts};
use crate::text::{append, append_str, same_text, to_chars};

verus! {

/// `piece` counts as a component: it is neither empty nor `.`.
pub open spec fn is_real_piece(piece: Seq<char>) -> bool {
    piece.len() > 0 && piece != "."@
}

/// The pieces that count as components, in order.
pub open spec fn real_pieces(pieces: Seq<Seq<char>>) -> Seq<Seq<char>>
    decreases pieces.len(),
{
    if pieces.len() == 0 {
        Seq::empty()
    } else if is_real_piece(pieces.last()) {
        real_pieces(pieces.drop_last()).push(pieces.last())
    } else {
        real_pieces(pieces.drop_last())
    }
}

/// What a path begins with: the root `/`, a leading `.`, or nothing.
pub open spec fn leading_component(p: Seq<char>) -> Seq<Seq<char>> {
    if p.len() > 0 && p[0] == '/' {
        seq!["/"@]
    } else if split_text(p, '/')[0] == "."@ {
        seq!["."@]
    } else {
        Seq::empty()
    }
}

/// The components of the path `p`.
pub open spec fn components_of(p: Seq<char>) -> Seq<Seq<char>> {
    leading_component(p) + real_pieces(split_text(p, '/'))
}

/// The components of the directory that holds `p`; the root for a path
/// that has no parent.
pub open spec fn parent_of(p: Seq<char>) -> Seq<Seq<char>> {
    let c = components_of(p);
    if c.len() == 0 || c == seq!["/"@] {
        seq!["/"@]
    } else {
        c.drop_last()
    }
}

/// `full` without the components `base` that it begins with; `None` when
/// it does not begin with them.
pub open spec fn without_prefix(full: Seq<Seq<char>>, base: Seq<Seq<char>>) -> Option<
    Seq<Seq<char>>,
> {
    if base.len() <= full.len() && full.subrange(0, base.len() as int) == base {
        Some(full.subrange(base.len() as int, full.len() as int))
    } else {
        None
    }
}

/// The way from the directory of `index_path` down to `deploy_path`, with
/// slashes between its components; `None` when `deploy_path` does not lie
/// below that directory or is that directory.
pub open spec fn relative_deploy_path(index_path: Seq<char>, deploy_path: Seq<char>) -> Option<
    Seq<char>,
> {
    match without_prefix(components_of(deploy_path), parent_of(index_path)) {
        Some(rest) => if join_text(rest, "/"@).len() == 0 {
            None
        } else {
            Some(join_text(rest, "/"@))
        },
        None => None,
    }
}

/// `c` names a directory of its own: it is neither the root nor `.` nor
/// `..`.
pub open spec fn is_normal(c: Seq<char>) -> bool {
    c != "/"@ && c != "."@ && c != ".."@
}

/// The path `current` extended by the component `c`.
pub open spec fn extended(current: Seq<char>, c: Seq<char>) -> Seq<char> {
    if current.len() == 0 || current == "/"@ {
        current + c
    } else {
        current + "/"@ + c
    }
}

/// Walking state over components: the path reached, and the directories
/// met on the way.
pub open spec fn chain_state(components: Seq<Seq<char>>) -> (Seq<char>, Seq<Seq<char>>)
    decreases components.len(),
{
    if components.len() == 0 {
        (Seq::empty(), Seq::empty())
    } else {
        let (current, chain) = chain_state(components.drop_last());
        let c = components.last();
        if c == "/"@ {
            ("/"@, chain)
        } else if is_normal(c) {
            (extended(current, c), chain.push(extended(current, c)))
        } else {
            (current, chain)
        }
    }
}

/// The directories to create, outermost first, so that the directory `p`
/// exists.
pub open spec fn directory_chain(p: Seq<char>) -> Seq<Seq<char>> {
    chain_state(components_of(p)).1
}

/// The components of the path `p`.
pub fn components(p: &Vec<char>) -> (r: Vec<Vec<char>>)
    ensures
        texts(r@) == components_of(p@),
{
    let pieces = split_on(p, '/');
    let dot = to_chars(".");
    let mut out: Vec<Vec<char>> = Vec::new();
    assert(texts(pieces@)[0] == pieces@[0]@);
    if p.len() > 0 && p[0] == '/' {
        out.push(to_chars("/"));
    } else if same_text(&pieces[0], &dot) {
        out.push(to_chars("."));
    }
    assert(texts(out@) =~= leading_component(p@));
    let ghost lead = texts(out@);
    let mut i: usize = 0;
    assert(texts(pieces@).subrange(0, 0) =~= Seq::<Seq<char>>::empty());
    assert(texts(out@) =~= lead + real_pieces(texts(pieces@).subrange(0, 0)));
    while i < pieces.len()
        invariant
            i <= pieces.len(),
            dot@ == "."@,
            texts(out@) == lead + real_pieces(texts(pieces@).subrange(0, i as int)),
        decreases pieces.len() - i,
    {
        let ghost before = texts(pieces@).subrange(0, i as int);
        let ghost after = texts(pieces@).subrange(0, i + 1);
        assert(after.drop_last() =~= before);
        assert(after.last() == pieces@[i as int]@);
        let piece = &pieces[i];
        if piece.len() > 0 && !same_text(piece, &dot) {
            let ghost old_out = out@;
            out.push(crate::text::slice(piece, 0, piece.len()));
            assert(piece@.subrange(0, piece.len() as int) =~= piece@);
            assert(texts(out@) =~= texts(old_out).push(piece@));
        }
        assert(texts(out@) =~= lead + real_pieces(after));
        i = i + 1;
    }
    assert(texts(pieces@).subrange(0, pieces.len() as int) =~= texts(pieces@));
    out
}

/// The components of the directory that holds `p`.
pub fn parent(p: &Vec<char>) -> (r: Vec<Vec<char>>)
    ensures
        texts(r@) == parent_of(p@),
{
    let mut c = components(p);
    let root = to_chars("/");
    if c.len() == 0 || (c.len() == 1 && same_text(&c[0], &root)) {
        let mut only: Vec<Vec<char>> = Vec::new();
        only.push(root);
        proof {
            if c.len() == 1 {
                assert(texts(c@)[0] == c@[0]@);
                assert(texts(c@) =~= seq!["/"@]);
            } else {
                assert(texts(c@) =~= Seq::<Seq<char>>::empty());
            }
        }
        assert(texts(only@) =~= seq!["/"@]);
        only
    } else {
        let ghost whole = c@;
        proof {
            if texts(whole) == seq!["/"@] {
                assert(texts(whole)[0] == whole[0]@);
            }
        }
        c.pop();
        assert(texts(c@) =~= texts(whole).drop_last());
        c
    }
}

/// `full` without the components `base` that it begins with.
pub fn strip_prefix(full: &Vec<Vec<char>>, base: &Vec<Vec<char>>) -> (r: Option<Vec<Vec<char>>>)
    ensures
        match r {
            Some(rest) => without_prefix(texts(full@), texts(base@)) == Some(texts(rest@)),
            None => without_prefix(texts(full@), texts(base@)) is None,
        },
{
    if base.len() > full.len() {
        return None;
    }
    let mut i: usize = 0;
    while i < base.len()
        invariant
            i <= base.len() <= full.len(),
            forall|j: int| 0 <= j < i ==> full@[j]@ == base@[j]@,
        decreases base.len() - i,
    {
        if !same_text(&full[i], &base[i]) {
            assert(texts(full@).subrange(0, base.len() as int)[i as int] == full@[i as int]@);
            assert(texts(base@)[i as int] == base@[i as int]@);
            return None;
        }
        i = i + 1;
    }
    assert(texts(full@).subrange(0, base.len() as int) =~= texts(base@));
    let mut rest: Vec<Vec<char>> = Vec::new();
    let mut k: usize = base.len();
    while k < full.len()
        invariant
            base.len() <= k <= full.len(),
            rest.len() == k - base.len(),
            forall|j: int| 0 <= j < rest.len() ==> (#[trigger] rest@[j])@ == full@[base.len() + j]@,
        decreases full.len() - k,
    {
        let piece = &full[k];
        rest.push(crate::text::slice(piece, 0, piece.len()));
        assert(piece@.subrange(0, piece.len() as int) =~= piece@);
        k = k + 1;
    }
    assert(texts(rest@) =~= texts(full@).subrange(base.len() as int, full.len() as int));
    Some(rest)
}

/// The way from the directory of `index_path` down to `deploy_path`.
pub fn relative_path(index_path: &Vec<char>, deploy_path: &Vec<char>) -> (r: Option<Vec<char>>)
    ensures
        match r {
            Some(rel) => relative_deploy_path(index_path@, deploy_path@) == Some(rel@),
            None => relative_deploy_path(index_path@, deploy_path@) is None,
        },
{
    let base = parent(index_path);
    let full = components(deploy_path);
    match strip_prefix(&full, &base) {
        Some(rest) => {
            let slash = to_chars("/");
            let joined = join(&rest, &slash);
            if joined.len() == 0 {
                None
            } else {
                Some(joined)
            }
        },
        None => None,
    }
}

/// The directories met when walking down `parts`, outermost first.
pub fn chain_of(parts: &Vec<Vec<char>>) -> (r: Vec<Vec<char>>)
    ensures
        texts(r@) == chain_state(texts(parts@)).1,
{
    let root = to_chars("/");
    let dot = to_chars(".");
    let dots = to_chars("..");
    let mut current: Vec<char> = Vec::new();
    let mut chain: Vec<Vec<char>> = Vec::new();
    let mut i: usize = 0;
    assert(texts(parts@).subrange(0, 0) =~= Seq::<Seq<char>>::empty());
    assert(texts(chain@) =~= Seq::<Seq<char>>::empty());
    while i < parts.len()
        invariant
            i <= parts.len(),
            root@ == "/"@,
            dot@ == "."@,
            dots@ == ".."@,
            (current@, texts(chain@)) == chain_state(texts(parts@).subrange(0, i as int)),
        decreases parts.len() - i,
    {
        let ghost before = texts(parts@).subrange(0, i as int);
        let ghost after = texts(parts@).subrange(0, i + 1);
        assert(after.drop_last() =~= before);
        assert(after.last() == parts@[i as int]@);
        let c = &parts[i];
        if same_text(c, &root) {
            current = to_chars("/");
        } else if !same_text(c, &dot) && !same_text(c, &dots) {
            if !(current.len() == 0 || same_text(&current, &root)) {
                append_str(&mut current, "/");
            }
            append(&mut current, c);
            let ghost old_chain = chain@;
            chain.push(crate::text::slice(&current, 0, current.len()));
            assert(current@.subrange(0, current.len() as int) =~= current@);
            assert(texts(chain@) =~= texts(old_chain).push(current@));
        }
        i = i + 1;
    }
    assert(texts(parts@).subrange(0, parts.len() as int) =~= texts(parts@));
    chain
}

/// The directories to create, outermost first, so that the directory `p`
/// exists.
pub fn directories_to_create(p: &Vec<char>) -> (r: Vec<Vec<char>>)
    ensures
        texts(r@) == directory_chain(p@),
{
    chain_of(&components(p))
}

} // verus!
