//! The plugin description inside a project: what it has to say before a
//! build.

use vstd::prelude::*;
use crate::index::{all_fit, fits, NodeShape};
use crate::xml::{
    cdata_element, has_child_named, parse_document, text_element, write_document, xml_parsed,
    xml_written, XmlElement, XmlNode,
};

verus! {

/// The elements that a description gets where it lacks them: id, name and
/// version; then the description and the change notes where texts for
/// them are at hand.
pub open spec fn added_shapes(
    children: Seq<XmlNode>,
    id: Seq<char>,
    name: Seq<char>,
    version: Seq<char>,
    description: Option<Seq<char>>,
    change_notes: Option<Seq<char>>,
) -> Seq<NodeShape> {
    (if has_child_named(children, "id"@) {
        Seq::empty()
    } else {
        seq![NodeShape::Text { name: "id"@, text: id }]
    }) + (if has_child_named(children, "name"@) {
        Seq::empty()
    } else {
        seq![NodeShape::Text { name: "name"@, text: name }]
    }) + (if has_child_named(children, "version"@) {
        Seq::empty()
    } else {
        seq![NodeShape::Text { name: "version"@, text: version }]
    }) + (match description {
        Some(d) if !has_child_named(children, "description"@) => seq![
            NodeShape::CData { name: "description"@, text: d },
        ],
        _ => Seq::empty(),
    }) + (match change_notes {
        Some(c) if !has_child_named(children, "change-notes"@) => seq![
            NodeShape::CData { name: "change-notes"@, text: c },
        ],
        _ => Seq::empty(),
    })
}

/// `after` is `before` with what it lacked: nothing that was there has
/// changed, and the added elements come behind it.
pub open spec fn is_enriched(
    after: XmlElement,
    before: XmlElement,
    id: Seq<char>,
    name: Seq<char>,
    version: Seq<char>,
    description: Option<Seq<char>>,
    change_notes: Option<Seq<char>>,
) -> bool {
    let added = added_shapes(before.children@, id, name, version, description, change_notes);
    &&& after.name == before.name
    &&& after.prefix == before.prefix
    &&& after.namespace == before.namespace
    &&& after.namespaces == before.namespaces
    &&& after.attributes == before.attributes
    &&& after.children@.len() == before.children@.len() + added.len()
    &&& after.children@.subrange(0, before.children@.len() as int) == before.children@
    &&& all_fit(
        after.children@.subrange(before.children@.len() as int, after.children@.len() as int),
        added,
    )
}

/// Whether generated texts are of any use to the description `root`: it
/// lacks a description or change notes.
pub fn needs_content(root: &XmlElement) -> (r: bool)
    ensures
        r == (!has_child_named(root.children@, "description"@) || !has_child_named(
            root.children@,
            "change-notes"@,
        )),
{
    !root.has_child("description") || !root.has_child("change-notes")
}

/// Gives the description `root` what it lacks.
pub fn enrich(
    root: XmlElement,
    id: &str,
    name: &str,
    version: &str,
    description: Option<&str>,
    change_notes: Option<&str>,
) -> (r: XmlElement)
    ensures
        is_enriched(
            r,
            root,
            id@,
            name@,
            version@,
            crate::history::opt_str(description),
            crate::history::opt_str(change_notes),
        ),
{
    let ghost before = root.children@;
    let ghost expected = added_shapes(
        before,
        id@,
        name@,
        version@,
        crate::history::opt_str(description),
        crate::history::opt_str(change_notes),
    );
    let has_id = root.has_child("id");
    let has_name = root.has_child("name");
    let has_version = root.has_child("version");
    let has_description = root.has_child("description");
    let has_notes = root.has_child("change-notes");
    let mut added: Vec<XmlNode> = Vec::new();
    let ghost mut shapes: Seq<NodeShape> = Seq::empty();
    if !has_id {
        added.push(text_element("id", id));
        proof {
            shapes = shapes.push(NodeShape::Text { name: "id"@, text: id@ });
        }
    }
    assert(all_fit(added@, shapes));
    if !has_name {
        let ghost old_added = added@;
        let ghost old_shapes = shapes;
        added.push(text_element("name", name));
        proof {
            shapes = shapes.push(NodeShape::Text { name: "name"@, text: name@ });
            assert forall|i: int| 0 <= i < added@.len() implies fits(#[trigger] added@[i], shapes[i]) by {
                if i < old_added.len() {
                    assert(added@[i] == old_added[i]);
                    assert(shapes[i] == old_shapes[i]);
                }
            }
        }
    }
    if !has_version {
        let ghost old_added = added@;
        let ghost old_shapes = shapes;
        added.push(text_element("version", version));
        proof {
            shapes = shapes.push(NodeShape::Text { name: "version"@, text: version@ });
            assert forall|i: int| 0 <= i < added@.len() implies fits(#[trigger] added@[i], shapes[i]) by {
                if i < old_added.len() {
                    assert(added@[i] == old_added[i]);
                    assert(shapes[i] == old_shapes[i]);
                }
            }
        }
    }
    match description {
        Some(d) => {
            if !has_description {
                let ghost old_added = added@;
                let ghost old_shapes = shapes;
                added.push(cdata_element("description", d));
                proof {
                    shapes = shapes.push(NodeShape::CData { name: "description"@, text: d@ });
                    assert forall|i: int| 0 <= i < added@.len() implies fits(
                        #[trigger] added@[i],
                        shapes[i],
                    ) by {
                        if i < old_added.len() {
                            assert(added@[i] == old_added[i]);
                            assert(shapes[i] == old_shapes[i]);
                        }
                    }
                }
            }
        },
        None => {},
    }
    match change_notes {
        Some(c) => {
            if !has_notes {
                let ghost old_added = added@;
                let ghost old_shapes = shapes;
                added.push(cdata_element("change-notes", c));
                proof {
                    shapes = shapes.push(NodeShape::CData { name: "change-notes"@, text: c@ });
                    assert forall|i: int| 0 <= i < added@.len() implies fits(
                        #[trigger] added@[i],
                        shapes[i],
                    ) by {
                        if i < old_added.len() {
                            assert(added@[i] == old_added[i]);
                            assert(shapes[i] == old_shapes[i]);
                        }
                    }
                }
            }
        },
        None => {},
    }
    assert(shapes =~= expected);
    let XmlElement { prefix, namespace, namespaces, name: root_name, attributes, children } = root;
    let mut all = children;
    let ghost added_nodes = added@;
    all.append(&mut added);
    assert(all@.subrange(0, before.len() as int) =~= before);
    assert(all@.subrange(before.len() as int, all@.len() as int) =~= added_nodes);
    XmlElement { prefix, namespace, namespaces, name: root_name, attributes, children: all }
}

/// A plugin description that has what it lacked, as a document and as
/// text.
#[derive(Debug)]
pub struct EnrichedDescription {
    pub text: String,
    pub document: XmlElement,
}

/// `m` is a fresh description: a plain `idea-plugin` root that holds what
/// an empty description lacks.
pub open spec fn is_fresh_description(
    m: XmlElement,
    id: Seq<char>,
    name: Seq<char>,
    version: Seq<char>,
    description: Option<Seq<char>>,
    change_notes: Option<Seq<char>>,
) -> bool {
    crate::xml::is_plain_element(m, "idea-plugin"@) && m.attributes@.len() == 0 && all_fit(
        m.children@,
        added_shapes(Seq::empty(), id, name, version, description, change_notes),
    )
}

/// `m` is what `existing` becomes: the document that `existing` writes,
/// given what it lacks, or a fresh description where there is none.
pub open spec fn is_description_for(
    m: XmlElement,
    existing: Option<Seq<char>>,
    id: Seq<char>,
    name: Seq<char>,
    version: Seq<char>,
    description: Option<Seq<char>>,
    change_notes: Option<Seq<char>>,
) -> bool {
    match existing {
        Some(raw) => xml_parsed(raw) matches Some(root) && is_enriched(
            m,
            root,
            id,
            name,
            version,
            description,
            change_notes,
        ),
        None => is_fresh_description(m, id, name, version, description, change_notes),
    }
}

/// The plugin description `existing`, or a fresh one where there is none,
/// given what it lacks, as a document and as the text that writes it.
/// `None` in two cases only: `existing` is no XML document, or the
/// description that was made cannot be written.
pub fn enrich_plugin_xml(
    existing: Option<&str>,
    id: &str,
    name: &str,
    version: &str,
    description: Option<&str>,
    change_notes: Option<&str>,
) -> (r: Option<EnrichedDescription>)
    ensures
        existing matches Some(raw) && xml_parsed(raw@) is None ==> r is None,
        r matches Some(e) ==> xml_written(e.document) == Some(e.text@) && is_description_for(
            e.document,
            crate::history::opt_str(existing),
            id@,
            name@,
            version@,
            crate::history::opt_str(description),
            crate::history::opt_str(change_notes),
        ),
        r is None ==> (existing matches Some(raw) && xml_parsed(raw@) is None) || exists|
            m: XmlElement,
        |
            is_description_for(
                m,
                crate::history::opt_str(existing),
                id@,
                name@,
                version@,
                crate::history::opt_str(description),
                crate::history::opt_str(change_notes),
            ) && #[trigger] xml_written(m) is None,
{
    let root = match existing {
        Some(raw) => match parse_document(raw) {
            Some(root) => root,
            None => {
                return None;
            },
        },
        None => XmlElement::new("idea-plugin"),
    };
    let ghost before = root.children@;
    let enriched = enrich(root, id, name, version, description, change_notes);
    proof {
        if existing is None {
            assert(before =~= Seq::<XmlNode>::empty());
            assert(enriched.children@.subrange(0, enriched.children@.len() as int)
                =~= enriched.children@);
        }
        assert(is_description_for(
            enriched,
            crate::history::opt_str(existing),
            id@,
            name@,
            version@,
            crate::history::opt_str(description),
            crate::history::opt_str(change_notes),
        ));
    }
    match write_document(&enriched) {
        Some(text) => Some(EnrichedDescription { text, document: enriched }),
        None => {
            assert(xml_written(enriched) is None);
            None
        },
    }
}

} // verus!
