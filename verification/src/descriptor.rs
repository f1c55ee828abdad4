//! The plugin index as a list of entries, one for each plugin.

use vstd::prelude::*;
use crate::deployer::{attribute_of_child, child_text, is_merged_document, text_of_child};
use crate::index::{
    entries_of, is_entry, is_merge_of, is_new_entry, other_nodes, prior_entry, MetaView,
};
use crate::pattern::opt_text;
use crate::text::same_str;
use crate::xml::{attribute_value, first_child_named, xml_parsed, XmlElement, XmlNode};

verus! {

/// What the index says of one plugin.
#[derive(Debug, Clone)]
pub struct PluginEntry {
    pub id: String,
    pub url: Option<String>,
    pub version: Option<String>,
    pub name: Option<String>,
    pub vendor: Option<String>,
    pub since_build: Option<String>,
    pub until_build: Option<String>,
    pub description: Option<String>,
}

/// The entries of an index, in the order of the document.
#[derive(Debug, Clone)]
pub struct RepositoryDescriptor {
    pub entries: Vec<PluginEntry>,
}

/// The mathematical content of a `PluginEntry`.
pub ghost struct EntryView {
    pub id: Seq<char>,
    pub url: Option<Seq<char>>,
    pub version: Option<Seq<char>>,
    pub name: Option<Seq<char>>,
    pub vendor: Option<Seq<char>>,
    pub since_build: Option<Seq<char>>,
    pub until_build: Option<Seq<char>>,
    pub description: Option<Seq<char>>,
}

impl View for PluginEntry {
    type V = EntryView;

    open spec fn view(&self) -> EntryView {
        EntryView {
            id: self.id@,
            url: opt_text(self.url),
            version: opt_text(self.version),
            name: opt_text(self.name),
            vendor: opt_text(self.vendor),
            since_build: opt_text(self.since_build),
            until_build: opt_text(self.until_build),
            description: opt_text(self.description),
        }
    }
}

/// The views of a sequence of entries.
pub open spec fn entry_views(v: Seq<PluginEntry>) -> Seq<EntryView> {
    v.map_values(|e: PluginEntry| e@)
}

/// The attribute `key` of the first child called `name`.
pub open spec fn child_attribute(nodes: Seq<XmlNode>, name: Seq<char>, key: Seq<char>) -> Option<
    Seq<char>,
> {
    match first_child_named(nodes, name) {
        Some(e) => attribute_value(e.attributes@, key),
        None => None,
    }
}

/// The entry that the node `n` makes: that of a `plugin` element with an
/// `id` attribute.
pub open spec fn entry_of(n: XmlNode) -> Option<EntryView> {
    match n {
        XmlNode::Element(e) => if e.name@ == "plugin"@ {
            match attribute_value(e.attributes@, "id"@) {
                Some(id) => Some(
                    EntryView {
                        id,
                        url: attribute_value(e.attributes@, "url"@),
                        version: attribute_value(e.attributes@, "version"@),
                        name: child_text(e.children@, "name"@),
                        vendor: child_text(e.children@, "vendor"@),
                        since_build: child_attribute(e.children@, "idea-version"@, "since-build"@),
                        until_build: child_attribute(e.children@, "idea-version"@, "until-build"@),
                        description: child_text(e.children@, "description"@),
                    },
                ),
                None => None,
            }
        } else {
            None
        },
        _ => None,
    }
}

/// The entries that `nodes` make, in order.
pub open spec fn described_entries(nodes: Seq<XmlNode>) -> Seq<EntryView>
    decreases nodes.len(),
{
    if nodes.len() == 0 {
        Seq::empty()
    } else {
        match entry_of(nodes.last()) {
            Some(e) => described_entries(nodes.drop_last()).push(e),
            None => described_entries(nodes.drop_last()),
        }
    }
}

/// The entries of other plugins than `id`, in order.
pub open spec fn entries_except(entries: Seq<EntryView>, id: Seq<char>) -> Seq<EntryView>
    decreases entries.len(),
{
    if entries.len() == 0 {
        Seq::empty()
    } else if entries.last().id == id {
        entries_except(entries.drop_last(), id)
    } else {
        entries_except(entries.drop_last(), id).push(entries.last())
    }
}

/// No two entries are of the same plugin.
pub open spec fn distinct_ids(entries: Seq<EntryView>) -> bool {
    forall|i: int, j: int|
        0 <= i < j < entries.len() ==> (#[trigger] entries[i]).id != (#[trigger] entries[j]).id
}

/// Removing the index entries of plugin `id` from a document removes the
/// entries of `id` from its list, and nothing else.
pub proof fn lemma_other_nodes_list(nodes: Seq<XmlNode>, id: Seq<char>)
    ensures
        described_entries(other_nodes(nodes, id)) == entries_except(described_entries(nodes), id),
    decreases nodes.len(),
{
    if nodes.len() > 0 {
        lemma_other_nodes_list(nodes.drop_last(), id);
        let rest = other_nodes(nodes.drop_last(), id);
        let listed = described_entries(nodes.drop_last());
        let n = nodes.last();
        if is_entry(n, id) {
            assert(entry_of(n) is Some && entry_of(n)->0.id == id);
            assert(listed.push(entry_of(n)->0).drop_last() =~= listed);
        } else {
            assert(rest.push(n).drop_last() =~= rest);
            match entry_of(n) {
                Some(e) => {
                    assert(e.id != id);
                    assert(listed.push(e).drop_last() =~= listed);
                },
                None => {},
            }
        }
    }
}

/// A new index entry is listed with its plugin, its address and its
/// version.
pub proof fn lemma_new_entry_is_listed(
    n: XmlNode,
    id: Seq<char>,
    url: Seq<char>,
    version: Seq<char>,
    prior: Option<XmlElement>,
    meta: MetaView,
    project_name: Seq<char>,
)
    requires
        is_new_entry(n, id, url, version, prior, meta, project_name),
    ensures
        entry_of(n) matches Some(e) && e.id == id && e.url == Some(url) && e.version == Some(
            version,
        ),
{
    reveal_strlit("id");
    reveal_strlit("url");
    reveal_strlit("version");
    let e = n->Element_0;
    let attrs = e.attributes@;
    assert(attrs[0].0@ == "id"@ && attrs[1].0@ == "url"@ && attrs[2].0@ == "version"@);
    assert("id"@.len() == 2 && "url"@.len() == 3 && "version"@.len() == 7);
    assert(attribute_value(attrs, "id"@) == Some(id));
    assert(attrs.drop_first()[0] == attrs[1]);
    assert(attrs.drop_first().drop_first()[0] == attrs[2]);
    let second = attrs.drop_first();
    let third = second.drop_first();
    assert(attrs[0].0@ != "url"@ && attrs[0].0@ != "version"@ && second[0].0@ != "version"@);
    assert(attribute_value(second, "url"@) == Some(url));
    assert(attribute_value(attrs, "url"@) == Some(url));
    assert(attribute_value(third, "version"@) == Some(version));
    assert(attribute_value(second, "version"@) == Some(version));
    assert(attribute_value(attrs, "version"@) == Some(version));
}

/// Merging a new release of plugin `id` into an index gives the list of
/// the index without the entries of `id`, each other entry as it was, and
/// at its end the entry of `id` with the new address and version.
pub proof fn law_merge_lists_the_new_release(
    after: XmlElement,
    before: XmlElement,
    id: Seq<char>,
    url: Seq<char>,
    version: Seq<char>,
    meta: MetaView,
    project_name: Seq<char>,
)
    requires
        is_merge_of(after, before, id, url, version, meta, project_name),
    ensures
        described_entries(after.children@).len() == entries_except(
            described_entries(before.children@),
            id,
        ).len() + 1,
        described_entries(after.children@).drop_last() == entries_except(
            described_entries(before.children@),
            id,
        ),
        described_entries(after.children@).last().id == id,
        described_entries(after.children@).last().url == Some(url),
        described_entries(after.children@).last().version == Some(version),
{
    let kept = other_nodes(before.children@, id);
    let added = after.children@.last();
    assert(after.children@ =~= kept.push(added));
    assert(kept.push(added).drop_last() =~= kept);
    lemma_other_nodes_list(before.children@, id);
    lemma_new_entry_is_listed(
        added,
        id,
        url,
        version,
        prior_entry(before.children@, id),
        meta,
        project_name,
    );
    let listed = described_entries(kept);
    assert(described_entries(after.children@) == listed.push(entry_of(added)->0));
    assert(listed.push(entry_of(added)->0).drop_last() =~= listed);
}

/// The first release of a plugin, into an index that lists no plugin or
/// where there is no index at all, gives an index that lists this release
/// and nothing else.
pub proof fn law_first_release_is_the_only_entry(
    m: XmlElement,
    existing: Option<Seq<char>>,
    id: Seq<char>,
    url: Seq<char>,
    version: Seq<char>,
    meta: MetaView,
    project_name: Seq<char>,
)
    requires
        is_merged_document(m, existing, id, url, version, meta, project_name),
        existing matches Some(raw) ==> (xml_parsed(raw) matches Some(root) ==> described_entries(
            root.children@,
        ).len() == 0),
    ensures
        described_entries(m.children@).len() == 1,
        described_entries(m.children@)[0].id == id,
        described_entries(m.children@)[0].url == Some(url),
        described_entries(m.children@)[0].version == Some(version),
{
    match existing {
        Some(raw) => {
            let root = xml_parsed(raw)->0;
            law_merge_lists_the_new_release(m, root, id, url, version, meta, project_name);
        },
        None => {
            let added = m.children@[0];
            lemma_new_entry_is_listed(added, id, url, version, None, meta, project_name);
            assert(m.children@.last() == added);
            assert(m.children@.drop_last() =~= Seq::<XmlNode>::empty());
            assert(described_entries(m.children@.drop_last()) =~= Seq::<EntryView>::empty());
            assert(described_entries(m.children@) =~= Seq::<EntryView>::empty().push(
                entry_of(added)->0,
            ));
        },
    }
}

/// The entry that `e` makes, if it is a `plugin` element with an `id`.
pub fn read_entry(e: &XmlElement) -> (r: Option<PluginEntry>)
    ensures
        match r {
            Some(entry) => entry_of(XmlNode::Element(*e)) == Some(entry@),
            None => entry_of(XmlNode::Element(*e)) is None,
        },
{
    if !same_str(e.name.as_str(), "plugin") {
        return None;
    }
    match e.attribute("id") {
        Some(id) => Some(
            PluginEntry {
                id,
                url: e.attribute("url"),
                version: e.attribute("version"),
                name: text_of_child(&e.children, "name"),
                vendor: text_of_child(&e.children, "vendor"),
                since_build: attribute_of_child(&e.children, "idea-version", "since-build"),
                until_build: attribute_of_child(&e.children, "idea-version", "until-build"),
                description: text_of_child(&e.children, "description"),
            },
        ),
        None => None,
    }
}

impl RepositoryDescriptor {
    /// The entries of the index whose root is `root`.
    pub fn from_document(root: &XmlElement) -> (r: Self)
        ensures
            entry_views(r.entries@) == described_entries(root.children@),
    {
        let mut entries: Vec<PluginEntry> = Vec::new();
        let mut i: usize = 0;
        assert(root.children@.subrange(0, 0) =~= Seq::<XmlNode>::empty());
        assert(entry_views(entries@) =~= Seq::<EntryView>::empty());
        while i < root.children.len()
            invariant
                i <= root.children.len(),
                entry_views(entries@) == described_entries(root.children@.subrange(0, i as int)),
            decreases root.children.len() - i,
        {
            let ghost before = root.children@.subrange(0, i as int);
            let ghost after = root.children@.subrange(0, i + 1);
            assert(after.drop_last() =~= before);
            assert(after.last() == root.children@[i as int]);
            match &root.children[i] {
                XmlNode::Element(e) => {
                    match read_entry(e) {
                        Some(entry) => {
                            let ghost prev = entries@;
                            entries.push(entry);
                            assert(entry_views(entries@) =~= entry_views(prev).push(entry@));
                        },
                        None => {},
                    }
                },
                _ => {},
            }
            i = i + 1;
        }
        assert(root.children@.subrange(0, root.children.len() as int) =~= root.children@);
        RepositoryDescriptor { entries }
    }

    /// The entry of plugin `id`, if the index has one: the first of them.
    pub fn find(&self, id: &str) -> (r: Option<usize>)
        ensures
            match r {
                Some(i) => i < self.entries@.len() && self.entries@[i as int].id@ == id@ && forall|
                    j: int,
                | 0 <= j < i ==> self.entries@[j].id@ != id@,
                None => forall|j: int| 0 <= j < self.entries@.len() ==> self.entries@[j].id@ != id@,
            },
    {
        let mut i: usize = 0;
        while i < self.entries.len()
            invariant
                i <= self.entries.len(),
                forall|j: int| 0 <= j < i ==> self.entries@[j].id@ != id@,
            decreases self.entries.len() - i,
        {
            if same_str(self.entries[i].id.as_str(), id) {
                return Some(i);
            }
            i = i + 1;
        }
        None
    }

    /// Whether no two entries are of the same plugin.
    pub fn has_distinct_ids(&self) -> (r: bool)
        ensures
            r == distinct_ids(entry_views(self.entries@)),
    {
        let n = self.entries.len();
        let mut j: usize = 0;
        while j < n
            invariant
                j <= n == self.entries.len(),
                forall|a: int, b: int|
                    0 <= a < b < j ==> self.entries@[a].id@ != self.entries@[b].id@,
            decreases n - j,
        {
            let mut i: usize = 0;
            while i < j
                invariant
                    i <= j < n == self.entries.len(),
                    forall|a: int| 0 <= a < i ==> self.entries@[a].id@ != self.entries@[j as int].id@,
                decreases j - i,
            {
                if same_str(self.entries[i].id.as_str(), self.entries[j].id.as_str()) {
                    assert(entry_views(self.entries@)[i as int].id == entry_views(
                        self.entries@,
                    )[j as int].id);
                    return false;
                }
                i = i + 1;
            }
            j = j + 1;
        }
        assert forall|a: int, b: int| 0 <= a < b < entry_views(self.entries@).len() implies (
        #[trigger] entry_views(self.entries@)[a]).id != (#[trigger] entry_views(
            self.entries@,
        )[b]).id by {
            assert(self.entries@[a].id@ != self.entries@[b].id@);
        }
        true
    }
}

} // verus!
