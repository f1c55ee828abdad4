//! The plugin index: an XML document whose root holds one `plugin` element
//! for each plugin id, and the merge that puts a new release into it.

use vstd::prelude::*;
use crate::pattern::opt_text;
use crate::text::same_str;
use crate::xml::{
    attribute_value, cdata_element, has_attributes, has_child_named, is_cdata_element,
    is_element_named, is_plain_element, is_text_element, nodes_have_child, text_element,
    XmlElement, XmlNode,
};

verus! {

/// What the package of a plugin says of it.
#[derive(Debug, Clone)]
pub struct PluginMeta {
    pub name: Option<String>,
    pub vendor: Option<String>,
    pub description: Option<String>,
    pub since_build: Option<String>,
    pub until_build: Option<String>,
}

/// The mathematical content of a `PluginMeta`.
pub ghost struct MetaView {
    pub name: Option<Seq<char>>,
    pub vendor: Option<Seq<char>>,
    pub description: Option<Seq<char>>,
    pub since_build: Option<Seq<char>>,
    pub until_build: Option<Seq<char>>,
}

impl View for PluginMeta {
    type V = MetaView;

    open spec fn view(&self) -> MetaView {
        MetaView {
            name: opt_text(self.name),
            vendor: opt_text(self.vendor),
            description: opt_text(self.description),
            since_build: opt_text(self.since_build),
            until_build: opt_text(self.until_build),
        }
    }
}

/// The content of an optional package description; nothing is known
/// without one.
pub open spec fn meta_or_nothing(meta: Option<&PluginMeta>) -> MetaView {
    match meta {
        Some(m) => m@,
        None => MetaView {
            name: None,
            vendor: None,
            description: None,
            since_build: None,
            until_build: None,
        },
    }
}

/// `n` is the index entry of plugin `id`: a `plugin` element whose `id`
/// attribute is `id`.
pub open spec fn is_entry(n: XmlNode, id: Seq<char>) -> bool {
    n matches XmlNode::Element(e) && e.name@ == "plugin"@ && attribute_value(
        e.attributes@,
        "id"@,
    ) == Some(id)
}

/// The nodes of `nodes` that are not entries of plugin `id`, in order.
pub open spec fn other_nodes(nodes: Seq<XmlNode>, id: Seq<char>) -> Seq<XmlNode>
    decreases nodes.len(),
{
    if nodes.len() == 0 {
        Seq::empty()
    } else if is_entry(nodes.last(), id) {
        other_nodes(nodes.drop_last(), id)
    } else {
        other_nodes(nodes.drop_last(), id).push(nodes.last())
    }
}

/// The entries of plugin `id` among `nodes`, in order.
pub open spec fn entries_of(nodes: Seq<XmlNode>, id: Seq<char>) -> Seq<XmlNode>
    decreases nodes.len(),
{
    if nodes.len() == 0 {
        Seq::empty()
    } else if is_entry(nodes.last(), id) {
        entries_of(nodes.drop_last(), id).push(nodes.last())
    } else {
        entries_of(nodes.drop_last(), id)
    }
}

/// The first entry of plugin `id` among `nodes`.
pub open spec fn prior_entry(nodes: Seq<XmlNode>, id: Seq<char>) -> Option<XmlElement>
    decreases nodes.len(),
{
    if nodes.len() == 0 {
        None
    } else {
        match prior_entry(nodes.drop_last(), id) {
            Some(p) => Some(p),
            None => if is_entry(nodes.last(), id) {
                Some(nodes.last()->Element_0)
            } else {
                None
            },
        }
    }
}

/// No plugin id has more than one entry among `nodes`.
pub open spec fn ids_unique(nodes: Seq<XmlNode>) -> bool {
    forall|id: Seq<char>| entries_of(nodes, id).len() <= 1
}

/// `n` is one of the fields that a new entry takes over from the entry it
/// replaces: name, vendor, compatibility range, description.
pub open spec fn is_kept_field(n: XmlNode) -> bool {
    is_element_named(n, "name"@) || is_element_named(n, "vendor"@) || is_element_named(
        n,
        "idea-version"@,
    ) || is_element_named(n, "description"@)
}

/// The fields among `children` that a new entry takes over, in order.
pub open spec fn kept_fields(children: Seq<XmlNode>) -> Seq<XmlNode>
    decreases children.len(),
{
    if children.len() == 0 {
        Seq::empty()
    } else if is_kept_field(children.last()) {
        kept_fields(children.drop_last()).push(children.last())
    } else {
        kept_fields(children.drop_last())
    }
}

/// The fields that the entry to replace hands over; none without such an
/// entry.
pub open spec fn inherited_fields(prior: Option<XmlElement>) -> Seq<XmlNode> {
    match prior {
        Some(p) => kept_fields(p.children@),
        None => Seq::empty(),
    }
}

/// What a child of the new entry has to be.
pub ghost enum NodeShape {
    /// The very node taken over from the entry that is replaced.
    Same(XmlNode),
    /// A plain element that holds one text.
    Text { name: Seq<char>, text: Seq<char> },
    /// A plain element that holds one piece of character data.
    CData { name: Seq<char>, text: Seq<char> },
    /// The compatibility range: `idea-version` with `since-build` and
    /// `until-build`, as far as they are known.
    Range { since: Option<Seq<char>>, until: Option<Seq<char>> },
}

/// The attributes of a compatibility range.
pub open spec fn range_attributes(since: Option<Seq<char>>, until: Option<Seq<char>>) -> Seq<
    (Seq<char>, Seq<char>),
> {
    (match since {
        Some(s) => seq![("since-build"@, s)],
        None => Seq::empty(),
    }) + (match until {
        Some(u) => seq![("until-build"@, u)],
        None => Seq::empty(),
    })
}

/// `n` has the shape `shape`.
pub open spec fn fits(n: XmlNode, shape: NodeShape) -> bool {
    match shape {
        NodeShape::Same(m) => n == m,
        NodeShape::Text { name, text } => is_text_element(n, name, text),
        NodeShape::CData { name, text } => is_cdata_element(n, name, text),
        NodeShape::Range { since, until } => n matches XmlNode::Element(e) && is_plain_element(
            e,
            "idea-version"@,
        ) && has_attributes(e, range_attributes(since, until)) && e.children@.len() == 0,
    }
}

/// The nodes have the shapes, one for one.
pub open spec fn all_fit(nodes: Seq<XmlNode>, shapes: Seq<NodeShape>) -> bool {
    nodes.len() == shapes.len() && forall|i: int|
        0 <= i < nodes.len() ==> fits(#[trigger] nodes[i], shapes[i])
}

/// The children of a new entry. Each field comes from the entry that is
/// replaced where that has it, else from the package, and the name at last
/// from the project: first the name unless it is inherited, then the
/// inherited fields, then vendor, compatibility range and description from
/// the package where they are not inherited.
pub open spec fn entry_shapes(inherited: Seq<XmlNode>, meta: MetaView, project_name: Seq<char>) -> Seq<
    NodeShape,
> {
    (if has_child_named(inherited, "name"@) {
        Seq::empty()
    } else {
        seq![
            NodeShape::Text {
                name: "name"@,
                text: match meta.name {
                    Some(n) => n,
                    None => project_name,
                },
            },
        ]
    }) + inherited.map_values(|n: XmlNode| NodeShape::Same(n)) + (match meta.vendor {
        Some(v) if !has_child_named(inherited, "vendor"@) => seq![
            NodeShape::Text { name: "vendor"@, text: v },
        ],
        _ => Seq::empty(),
    }) + (if !has_child_named(inherited, "idea-version"@) && (meta.since_build is Some
        || meta.until_build is Some) {
        seq![NodeShape::Range { since: meta.since_build, until: meta.until_build }]
    } else {
        Seq::empty()
    }) + (match meta.description {
        Some(d) if !has_child_named(inherited, "description"@) => seq![
            NodeShape::CData { name: "description"@, text: d },
        ],
        _ => Seq::empty(),
    })
}

/// `n` is the new entry of plugin `id`: a plain `plugin` element with the
/// attributes `id`, `url` and `version`, in that order, and the children
/// that follow from the replaced entry `prior`, the package and the
/// project.
pub open spec fn is_new_entry(
    n: XmlNode,
    id: Seq<char>,
    url: Seq<char>,
    version: Seq<char>,
    prior: Option<XmlElement>,
    meta: MetaView,
    project_name: Seq<char>,
) -> bool {
    n matches XmlNode::Element(e) && is_plain_element(e, "plugin"@) && has_attributes(
        e,
        seq![("id"@, id), ("url"@, url), ("version"@, version)],
    ) && all_fit(e.children@, entry_shapes(inherited_fields(prior), meta, project_name))
}

/// `after` is `before` merged with a new release of plugin `id`: the root
/// itself is unchanged; its children are those of `before` that are not
/// entries of `id`, unchanged and in order, and then the new entry.
pub open spec fn is_merge_of(
    after: XmlElement,
    before: XmlElement,
    id: Seq<char>,
    url: Seq<char>,
    version: Seq<char>,
    meta: MetaView,
    project_name: Seq<char>,
) -> bool {
    &&& after.name == before.name
    &&& after.prefix == before.prefix
    &&& after.namespace == before.namespace
    &&& after.namespaces == before.namespaces
    &&& after.attributes == before.attributes
    &&& after.children@.len() == other_nodes(before.children@, id).len() + 1
    &&& after.children@.drop_last() == other_nodes(before.children@, id)
    &&& is_new_entry(
        after.children@.last(),
        id,
        url,
        version,
        prior_entry(before.children@, id),
        meta,
        project_name,
    )
}

/// An entry of one plugin is no entry of another.
pub proof fn lemma_entry_has_one_id(n: XmlNode, a: Seq<char>, b: Seq<char>)
    requires
        is_entry(n, a),
        a != b,
    ensures
        !is_entry(n, b),
{
}

/// Removing the entries of plugin `id` leaves the entries of every other
/// plugin as they were.
pub proof fn lemma_others_keep_entries(nodes: Seq<XmlNode>, id: Seq<char>, other: Seq<char>)
    requires
        id != other,
    ensures
        entries_of(other_nodes(nodes, id), other) == entries_of(nodes, other),
    decreases nodes.len(),
{
    if nodes.len() > 0 {
        lemma_others_keep_entries(nodes.drop_last(), id, other);
        let rest = other_nodes(nodes.drop_last(), id);
        if !is_entry(nodes.last(), id) {
            assert(rest.push(nodes.last()).drop_last() =~= rest);
        }
    }
}

/// Removing the entries of plugin `id` leaves no entry of it.
pub proof fn lemma_others_have_none(nodes: Seq<XmlNode>, id: Seq<char>)
    ensures
        entries_of(other_nodes(nodes, id), id).len() == 0,
    decreases nodes.len(),
{
    if nodes.len() > 0 {
        lemma_others_have_none(nodes.drop_last(), id);
        let rest = other_nodes(nodes.drop_last(), id);
        if !is_entry(nodes.last(), id) {
            assert(rest.push(nodes.last()).drop_last() =~= rest);
        }
    }
}

/// Merging a new release of plugin `id` into an index leaves exactly one
/// entry of `id`, the new one, and leaves the entries of every other
/// plugin as they were, node for node; an index with at most one entry for
/// each id stays so.
pub proof fn law_merge_replaces_one_entry(
    after: XmlElement,
    before: XmlElement,
    id: Seq<char>,
    url: Seq<char>,
    version: Seq<char>,
    meta: MetaView,
    project_name: Seq<char>,
)
    requires
        is_merge_of(after, before, id, url, version, meta, project_name),
    ensures
        entries_of(after.children@, id) == seq![after.children@.last()],
        forall|other: Seq<char>|
            other != id ==> entries_of(after.children@, other) == entries_of(
                before.children@,
                other,
            ),
        ids_unique(before.children@) ==> ids_unique(after.children@),
{
    let kept = other_nodes(before.children@, id);
    let added = after.children@.last();
    assert(after.children@ =~= kept.push(added));
    assert(is_entry(added, id)) by {
        let e = added->Element_0;
        let attrs = e.attributes@;
        assert(attrs[0].0@ == "id"@);
        assert(attribute_value(attrs, "id"@) == Some(id));
    }
    lemma_others_have_none(before.children@, id);
    assert(kept.push(added).drop_last() =~= kept);
    assert(entries_of(after.children@, id) =~= seq![added]);
    assert forall|other: Seq<char>| other != id implies entries_of(after.children@, other)
        == entries_of(before.children@, other) by {
        lemma_others_keep_entries(before.children@, id, other);
        lemma_entry_has_one_id(added, id, other);
    }
    if ids_unique(before.children@) {
        assert forall|any: Seq<char>| entries_of(after.children@, any).len() <= 1 by {
            if any != id {
                assert(entries_of(after.children@, any) == entries_of(before.children@, any));
            }
        }
    }
}

/// Whether `n` is the index entry of plugin `id`.
pub fn node_is_entry(n: &XmlNode, id: &str) -> (r: bool)
    ensures
        r == is_entry(*n, id@),
{
    match n {
        XmlNode::Element(e) => {
            if same_str(e.name.as_str(), "plugin") {
                match e.attribute("id") {
                    Some(found) => same_str(found.as_str(), id),
                    None => false,
                }
            } else {
                false
            }
        },
        _ => false,
    }
}

/// Whether `n` is a field that a new entry takes over.
pub fn node_is_kept_field(n: &XmlNode) -> (r: bool)
    ensures
        r == is_kept_field(*n),
{
    match n {
        XmlNode::Element(e) => {
            let name = e.name.as_str();
            same_str(name, "name") || same_str(name, "vendor") || same_str(name, "idea-version")
                || same_str(name, "description")
        },
        _ => false,
    }
}

/// Splits the children of an index root into the nodes to keep and the
/// first entry of plugin `id`, which the new entry replaces.
pub fn split_entries(children: Vec<XmlNode>, id: &str) -> (r: (Vec<XmlNode>, Option<XmlElement>))
    ensures
        r.0@ == other_nodes(children@, id@),
        r.1 == prior_entry(children@, id@),
{
    let mut rest = children;
    let mut others: Vec<XmlNode> = Vec::new();
    let mut prior: Option<XmlElement> = None;
    let ghost mut seen: Seq<XmlNode> = Seq::empty();
    assert(seen + rest@ =~= children@);
    while rest.len() > 0
        invariant
            seen + rest@ == children@,
            others@ == other_nodes(seen, id@),
            prior == prior_entry(seen, id@),
        decreases rest.len(),
    {
        let n = rest.remove(0);
        proof {
            let next = seen.push(n);
            assert(next.drop_last() =~= seen);
            assert(next + rest@ =~= children@);
            seen = next;
        }
        if node_is_entry(&n, id) {
            match n {
                XmlNode::Element(e) => {
                    if prior.is_none() {
                        prior = Some(e);
                    }
                },
                _ => {},
            }
        } else {
            others.push(n);
        }
    }
    assert(seen =~= children@);
    (others, prior)
}

/// The fields among `children` that a new entry takes over.
pub fn take_kept_fields(children: Vec<XmlNode>) -> (r: Vec<XmlNode>)
    ensures
        r@ == kept_fields(children@),
{
    let mut rest = children;
    let mut kept: Vec<XmlNode> = Vec::new();
    let ghost mut seen: Seq<XmlNode> = Seq::empty();
    assert(seen + rest@ =~= children@);
    while rest.len() > 0
        invariant
            seen + rest@ == children@,
            kept@ == kept_fields(seen),
        decreases rest.len(),
    {
        let n = rest.remove(0);
        proof {
            let next = seen.push(n);
            assert(next.drop_last() =~= seen);
            assert(next + rest@ =~= children@);
            seen = next;
        }
        if node_is_kept_field(&n) {
            kept.push(n);
        }
    }
    assert(seen =~= children@);
    kept
}

/// The compatibility range as an `idea-version` element.
pub fn range_element(since: &Option<String>, until: &Option<String>) -> (r: XmlNode)
    ensures
        fits(r, NodeShape::Range { since: opt_text(*since), until: opt_text(*until) }),
{
    let mut e = XmlElement::new("idea-version");
    match since {
        Some(s) => {
            e.attributes.push(("since-build".to_owned(), s.clone()));
        },
        None => {},
    }
    match until {
        Some(u) => {
            e.attributes.push(("until-build".to_owned(), u.clone()));
        },
        None => {},
    }
    assert(has_attributes(e, range_attributes(opt_text(*since), opt_text(*until))));
    XmlNode::Element(e)
}

/// The children of the new entry.
pub fn entry_children(inherited: Vec<XmlNode>, meta: Option<&PluginMeta>, project_name: &str) -> (r:
    Vec<XmlNode>)
    ensures
        all_fit(r@, entry_shapes(inherited@, meta_or_nothing(meta), project_name@)),
{
    let ghost m = meta_or_nothing(meta);
    let ghost shapes = entry_shapes(inherited@, m, project_name@);
    let has_name = nodes_have_child(&inherited, "name");
    let has_vendor = nodes_have_child(&inherited, "vendor");
    let has_range = nodes_have_child(&inherited, "idea-version");
    let has_description = nodes_have_child(&inherited, "description");
    let mut out: Vec<XmlNode> = Vec::new();
    let ghost mut built: Seq<NodeShape> = Seq::empty();
    if !has_name {
        let node = match meta {
            Some(PluginMeta { name: Some(n), .. }) => text_element("name", n.as_str()),
            _ => text_element("name", project_name),
        };
        out.push(node);
        proof {
            built = built.push(
                NodeShape::Text {
                    name: "name"@,
                    text: match m.name {
                        Some(n) => n,
                        None => project_name@,
                    },
                },
            );
        }
    }
    assert(all_fit(out@, built));
    let ghost head = built;
    let ghost given = inherited@;
    let ghost inherited_shapes = given.map_values(|n: XmlNode| NodeShape::Same(n));
    let mut rest = inherited;
    let ghost mut seen: Seq<XmlNode> = Seq::empty();
    assert(seen + rest@ =~= given);
    assert(built =~= head + inherited_shapes.subrange(0, 0));
    while rest.len() > 0
        invariant
            seen + rest@ == given,
            inherited_shapes == given.map_values(|n: XmlNode| NodeShape::Same(n)),
            built == head + inherited_shapes.subrange(0, seen.len() as int),
            all_fit(out@, built),
        decreases rest.len(),
    {
        let ghost before_out = out@;
        let ghost before_built = built;
        let n = rest.remove(0);
        out.push(n);
        proof {
            let next = seen.push(n);
            assert(next + rest@ =~= given);
            assert(given[seen.len() as int] == n);
            built = before_built.push(NodeShape::Same(n));
            assert(built =~= head + inherited_shapes.subrange(0, next.len() as int));
            seen = next;
            assert forall|i: int| 0 <= i < out@.len() implies fits(#[trigger] out@[i], built[i]) by {
                if i < before_out.len() {
                    assert(out@[i] == before_out[i]);
                    assert(built[i] == before_built[i]);
                }
            }
        }
    }
    assert(seen =~= given);
    assert(inherited_shapes.subrange(0, seen.len() as int) =~= inherited_shapes);
    match meta {
        Some(found) => {
            match &found.vendor {
                Some(v) => {
                    if !has_vendor {
                        let ghost before_out = out@;
                        let ghost before_built = built;
                        out.push(text_element("vendor", v.as_str()));
                        proof {
                            built = before_built.push(NodeShape::Text { name: "vendor"@, text: v@ });
                            assert forall|i: int| 0 <= i < out@.len() implies fits(
                                #[trigger] out@[i],
                                built[i],
                            ) by {
                                if i < before_out.len() {
                                    assert(out@[i] == before_out[i]);
                                    assert(built[i] == before_built[i]);
                                }
                            }
                        }
                    }
                },
                None => {},
            }
            if !has_range && (found.since_build.is_some() || found.until_build.is_some()) {
                let ghost before_out = out@;
                let ghost before_built = built;
                out.push(range_element(&found.since_build, &found.until_build));
                proof {
                    built = before_built.push(
                        NodeShape::Range { since: m.since_build, until: m.until_build },
                    );
                    assert forall|i: int| 0 <= i < out@.len() implies fits(
                        #[trigger] out@[i],
                        built[i],
                    ) by {
                        if i < before_out.len() {
                            assert(out@[i] == before_out[i]);
                            assert(built[i] == before_built[i]);
                        }
                    }
                }
            }
            match &found.description {
                Some(d) => {
                    if !has_description {
                        let ghost before_out = out@;
                        let ghost before_built = built;
                        out.push(cdata_element("description", d.as_str()));
                        proof {
                            built = before_built.push(
                                NodeShape::CData { name: "description"@, text: d@ },
                            );
                            assert forall|i: int| 0 <= i < out@.len() implies fits(
                                #[trigger] out@[i],
                                built[i],
                            ) by {
                                if i < before_out.len() {
                                    assert(out@[i] == before_out[i]);
                                    assert(built[i] == before_built[i]);
                                }
                            }
                        }
                    }
                },
                None => {},
            }
        },
        None => {},
    }
    assert(built =~= shapes);
    out
}

/// Merges a new release of plugin `id` into the index whose root is
/// `root`: every entry of `id` leaves, every other node stays as it is, and
/// the new entry comes last.
pub fn merge_index(
    root: XmlElement,
    id: &str,
    url: &str,
    version: &str,
    meta: Option<&PluginMeta>,
    project_name: &str,
) -> (r: XmlElement)
    ensures
        is_merge_of(r, root, id@, url@, version@, meta_or_nothing(meta), project_name@),
{
    let XmlElement { prefix, namespace, namespaces, name, attributes, children } = root;
    let (mut others, prior) = split_entries(children, id);
    let inherited = match prior {
        Some(p) => take_kept_fields(p.children),
        None => Vec::new(),
    };
    assert(inherited@ =~= inherited_fields(prior));
    let mut entry = XmlElement::new("plugin");
    entry.attributes.push(("id".to_owned(), id.to_owned()));
    entry.attributes.push(("url".to_owned(), url.to_owned()));
    entry.attributes.push(("version".to_owned(), version.to_owned()));
    entry.children = entry_children(inherited, meta, project_name);
    let ghost kept = others@;
    others.push(XmlNode::Element(entry));
    assert(others@.drop_last() =~= kept);
    XmlElement { prefix, namespace, namespaces, name, attributes, children: others }
}

} // verus!
