//! XML documents as trees, read and written by the `xmltree` crate.
//!
//! The library works on a tree of its own that holds, field for field, what
//! the crate's tree holds; attributes keep the order of the document.

use vstd::prelude::*;
use crate::pattern::opt_text;
use crate::text::same_str;

verus! {

/// An element of the `xmltree` crate.
#[verifier::external_type_specification]
#[verifier::external_body]
pub struct ExOutsideElement(xmltree::Element);

/// A node of the `xmltree` crate.
#[verifier::external_type_specification]
#[verifier::external_body]
pub struct ExOutsideNode(xmltree::XMLNode);

/// One node of a document.
#[derive(Debug)]
pub enum XmlNode {
    Element(XmlElement),
    Comment(String),
    CData(String),
    Text(String),
    ProcessingInstruction(String, Option<String>),
}

/// One element with its attributes, in document order, and its children.
#[derive(Debug)]
pub struct XmlElement {
    pub prefix: Option<String>,
    pub namespace: Option<String>,
    pub namespaces: Option<Vec<(String, String)>>,
    pub name: String,
    pub attributes: Vec<(String, String)>,
    pub children: Vec<XmlNode>,
}

/// The root element of the document that `raw` writes; `None` when `raw` is
/// not well-formed XML.
pub uninterp spec fn xml_parsed(raw: Seq<char>) -> Option<XmlElement>;

/// The document, with its declaration, whose root element is `root`; `None`
/// when the tree cannot be written.
pub uninterp spec fn xml_written(root: XmlElement) -> Option<Seq<char>>;

/// Copies an element of the crate, field for field, into the library's
/// tree. Nothing is claimed of the result.
#[verifier::external_body]
fn element_from_outside(e: &xmltree::Element) -> XmlElement {
    XmlElement {
        prefix: e.prefix.clone(),
        namespace: e.namespace.clone(),
        namespaces: e.namespaces.as_ref().map(
            |n| n.0.iter().map(|(k, v)| (k.clone(), v.clone())).collect(),
        ),
        name: e.name.clone(),
        attributes: e.attributes.iter().map(|(k, v)| (k.clone(), v.clone())).collect(),
        children: e.children.iter().map(node_from_outside).collect(),
    }
}

/// Copies a node of the crate, variant for variant, into the library's
/// tree. Nothing is claimed of the result.
#[verifier::external_body]
fn node_from_outside(n: &xmltree::XMLNode) -> XmlNode {
    match n {
        xmltree::XMLNode::Element(e) => XmlNode::Element(element_from_outside(e)),
        xmltree::XMLNode::Comment(s) => XmlNode::Comment(s.clone()),
        xmltree::XMLNode::CData(s) => XmlNode::CData(s.clone()),
        xmltree::XMLNode::Text(s) => XmlNode::Text(s.clone()),
        xmltree::XMLNode::ProcessingInstruction(s, d) => XmlNode::ProcessingInstruction(
            s.clone(),
            d.clone(),
        ),
    }
}

/// Copies an element of the library's tree, field for field, into an
/// element of the crate. Nothing is claimed of the result.
#[verifier::external_body]
fn element_to_outside(e: &XmlElement) -> xmltree::Element {
    xmltree::Element {
        prefix: e.prefix.clone(),
        namespace: e.namespace.clone(),
        namespaces: e.namespaces.as_ref().map(|n| xmltree::Namespace(n.iter().cloned().collect())),
        name: e.name.clone(),
        attributes: e.attributes.iter().cloned().collect(),
        children: e.children.iter().map(node_to_outside).collect(),
    }
}

/// Copies a node of the library's tree, variant for variant, into a node of
/// the crate. Nothing is claimed of the result.
#[verifier::external_body]
fn node_to_outside(n: &XmlNode) -> xmltree::XMLNode {
    match n {
        XmlNode::Element(e) => xmltree::XMLNode::Element(element_to_outside(e)),
        XmlNode::Comment(s) => xmltree::XMLNode::Comment(s.clone()),
        XmlNode::CData(s) => xmltree::XMLNode::CData(s.clone()),
        XmlNode::Text(s) => xmltree::XMLNode::Text(s.clone()),
        XmlNode::ProcessingInstruction(s, d) => xmltree::XMLNode::ProcessingInstruction(
            s.clone(),
            d.clone(),
        ),
    }
}

/// `xmltree::Element::parse`: reads a document and hands out its root
/// element as a tree of the library. The result is the named one; nothing
/// else is claimed of it.
#[verifier::external_body]
pub(crate) fn parse_document(raw: &str) -> (r: Option<XmlElement>)
    ensures
        r == xml_parsed(raw@),
{
    match xmltree::Element::parse(raw.as_bytes()) {
        Ok(e) => Some(element_from_outside(&e)),
        Err(_) => None,
    }
}

/// `xmltree::Element::write`: writes the document whose root is `root`. The
/// result is the named one; nothing else is claimed of it.
#[verifier::external_body]
pub(crate) fn write_document(root: &XmlElement) -> (r: Option<String>)
    ensures
        opt_text(r) == xml_written(*root),
{
    let mut buffer: Vec<u8> = Vec::new();
    match element_to_outside(root).write(&mut buffer) {
        Ok(_) => String::from_utf8(buffer).ok(),
        Err(_) => None,
    }
}

/// The value of the first attribute called `key`.
pub open spec fn attribute_value(attributes: Seq<(String, String)>, key: Seq<char>) -> Option<
    Seq<char>,
>
    decreases attributes.len(),
{
    if attributes.len() == 0 {
        None
    } else if attributes[0].0@ == key {
        Some(attributes[0].1@)
    } else {
        attribute_value(attributes.drop_first(), key)
    }
}

/// `n` is an element called `name`.
pub open spec fn is_element_named(n: XmlNode, name: Seq<char>) -> bool {
    n matches XmlNode::Element(e) && e.name@ == name
}

/// Some node of `nodes` is an element called `name`.
pub open spec fn has_child_named(nodes: Seq<XmlNode>, name: Seq<char>) -> bool {
    exists|i: int| 0 <= i < nodes.len() && is_element_named(#[trigger] nodes[i], name)
}

/// The first element called `name` among `nodes`.
pub open spec fn first_child_named(nodes: Seq<XmlNode>, name: Seq<char>) -> Option<XmlElement>
    decreases nodes.len(),
{
    if nodes.len() == 0 {
        None
    } else if is_element_named(nodes[0], name) {
        Some(nodes[0]->Element_0)
    } else {
        first_child_named(nodes.drop_first(), name)
    }
}

/// The text that `nodes` hold directly: their text and character-data
/// nodes, concatenated.
pub open spec fn inner_text(nodes: Seq<XmlNode>) -> Seq<char>
    decreases nodes.len(),
{
    if nodes.len() == 0 {
        Seq::empty()
    } else {
        inner_text(nodes.drop_last()) + match nodes.last() {
            XmlNode::Text(t) => t@,
            XmlNode::CData(t) => t@,
            _ => Seq::empty(),
        }
    }
}

/// Some node of `nodes` is text or character data.
pub open spec fn has_text(nodes: Seq<XmlNode>) -> bool {
    exists|i: int|
        0 <= i < nodes.len() && ((#[trigger] nodes[i]) is Text || nodes[i] is CData)
}

/// `e` is a plain element called `name`: no prefix, no namespace, with the
/// given attributes and children.
pub open spec fn is_plain_element(e: XmlElement, name: Seq<char>) -> bool {
    e.name@ == name && e.prefix is None && e.namespace is None && e.namespaces is None
}

/// The attributes of `e` are exactly `pairs`, in order.
pub open spec fn has_attributes(e: XmlElement, pairs: Seq<(Seq<char>, Seq<char>)>) -> bool {
    e.attributes@.len() == pairs.len() && forall|i: int|
        0 <= i < pairs.len() ==> (#[trigger] e.attributes@[i]).0@ == pairs[i].0
            && e.attributes@[i].1@ == pairs[i].1
}

/// `n` is a plain element called `name` without attributes that holds the
/// one text node `text`.
pub open spec fn is_text_element(n: XmlNode, name: Seq<char>, text: Seq<char>) -> bool {
    n matches XmlNode::Element(e) && is_plain_element(e, name) && e.attributes@.len() == 0
        && e.children@.len() == 1 && (e.children@[0] matches XmlNode::Text(t) && t@ == text)
}

/// `n` is a plain element called `name` without attributes that holds the
/// one character-data node `text`.
pub open spec fn is_cdata_element(n: XmlNode, name: Seq<char>, text: Seq<char>) -> bool {
    n matches XmlNode::Element(e) && is_plain_element(e, name) && e.attributes@.len() == 0
        && e.children@.len() == 1 && (e.children@[0] matches XmlNode::CData(t) && t@ == text)
}

impl XmlElement {
    /// A plain element called `name`, without attributes or children.
    pub fn new(name: &str) -> (r: Self)
        ensures
            is_plain_element(r, name@),
            r.attributes@.len() == 0,
            r.children@.len() == 0,
    {
        XmlElement {
            prefix: None,
            namespace: None,
            namespaces: None,
            name: name.to_owned(),
            attributes: Vec::new(),
            children: Vec::new(),
        }
    }

    /// The value of the first attribute called `key`.
    pub fn attribute(&self, key: &str) -> (r: Option<String>)
        ensures
            opt_text(r) == attribute_value(self.attributes@, key@),
    {
        let mut i: usize = 0;
        assert(self.attributes@.subrange(0, self.attributes.len() as int) =~= self.attributes@);
        while i < self.attributes.len()
            invariant
                i <= self.attributes.len(),
                attribute_value(self.attributes@, key@) == attribute_value(
                    self.attributes@.subrange(i as int, self.attributes.len() as int),
                    key@,
                ),
            decreases self.attributes.len() - i,
        {
            let ghost rest = self.attributes@.subrange(i as int, self.attributes.len() as int);
            assert(rest[0] == self.attributes@[i as int]);
            assert(rest.drop_first() =~= self.attributes@.subrange(
                i + 1,
                self.attributes.len() as int,
            ));
            if same_str(self.attributes[i].0.as_str(), key) {
                return Some(self.attributes[i].1.clone());
            }
            i = i + 1;
        }
        None
    }

    /// Whether a child is an element called `name`.
    pub fn has_child(&self, name: &str) -> (r: bool)
        ensures
            r == has_child_named(self.children@, name@),
    {
        nodes_have_child(&self.children, name)
    }

    /// The text that this element holds directly, if it holds any text or
    /// character-data node.
    pub fn text(&self) -> (r: Option<String>)
        ensures
            opt_text(r) == if has_text(self.children@) {
                Some(inner_text(self.children@))
            } else {
                None
            },
    {
        let mut out = String::new();
        let mut found = false;
        let mut i: usize = 0;
        assert(self.children@.subrange(0, 0) =~= Seq::<XmlNode>::empty());
        while i < self.children.len()
            invariant
                i <= self.children.len(),
                out@ == inner_text(self.children@.subrange(0, i as int)),
                found == has_text(self.children@.subrange(0, i as int)),
            decreases self.children.len() - i,
        {
            let ghost before = self.children@.subrange(0, i as int);
            let ghost after = self.children@.subrange(0, i + 1);
            assert(after.drop_last() =~= before);
            assert(after.last() == self.children@[i as int]);
            let ghost was = found;
            match &self.children[i] {
                XmlNode::Text(t) => {
                    out.append(t.as_str());
                    found = true;
                },
                XmlNode::CData(t) => {
                    out.append(t.as_str());
                    found = true;
                },
                _ => {},
            }
            proof {
                if found {
                    if was {
                        let k = choose|k: int|
                            0 <= k < before.len() && ((#[trigger] before[k]) is Text
                                || before[k] is CData);
                        assert(after[k] == before[k]);
                    } else {
                        assert(after[i as int] is Text || after[i as int] is CData);
                    }
                } else {
                    assert forall|k: int| 0 <= k < after.len() implies !((#[trigger] after[k])
                        is Text || after[k] is CData) by {
                        if k < before.len() {
                            assert(after[k] == before[k]);
                        }
                    }
                }
            }
            assert(out@ =~= inner_text(after));
            i = i + 1;
        }
        assert(self.children@.subrange(0, self.children.len() as int) =~= self.children@);
        if found {
            Some(out)
        } else {
            None
        }
    }
}

/// Whether a node of `nodes` is an element called `name`.
pub fn nodes_have_child(nodes: &Vec<XmlNode>, name: &str) -> (r: bool)
    ensures
        r == has_child_named(nodes@, name@),
{
    let mut i: usize = 0;
    while i < nodes.len()
        invariant
            i <= nodes.len(),
            forall|j: int| 0 <= j < i ==> !is_element_named(#[trigger] nodes@[j], name@),
        decreases nodes.len() - i,
    {
        match &nodes[i] {
            XmlNode::Element(e) => {
                if same_str(e.name.as_str(), name) {
                    assert(is_element_named(nodes@[i as int], name@));
                    return true;
                }
            },
            _ => {},
        }
        i = i + 1;
    }
    false
}

/// The index of the first element called `name` among `nodes`.
pub fn find_child(nodes: &Vec<XmlNode>, name: &str) -> (r: Option<usize>)
    ensures
        match r {
            Some(i) => i < nodes.len() && is_element_named(nodes@[i as int], name@)
                && first_child_named(nodes@, name@) == Some(nodes@[i as int]->Element_0),
            None => first_child_named(nodes@, name@) is None && !has_child_named(nodes@, name@),
        },
{
    let mut i: usize = 0;
    assert(nodes@.subrange(0, nodes.len() as int) =~= nodes@);
    while i < nodes.len()
        invariant
            i <= nodes.len(),
            forall|j: int| 0 <= j < i ==> !is_element_named(#[trigger] nodes@[j], name@),
            first_child_named(nodes@, name@) == first_child_named(
                nodes@.subrange(i as int, nodes.len() as int),
                name@,
            ),
        decreases nodes.len() - i,
    {
        let ghost rest = nodes@.subrange(i as int, nodes.len() as int);
        assert(rest[0] == nodes@[i as int]);
        assert(rest.drop_first() =~= nodes@.subrange(i + 1, nodes.len() as int));
        match &nodes[i] {
            XmlNode::Element(e) => {
                if same_str(e.name.as_str(), name) {
                    return Some(i);
                }
            },
            _ => {},
        }
        i = i + 1;
    }
    None
}

/// A plain element called `name` that holds the text `text`.
pub fn text_element(name: &str, text: &str) -> (r: XmlNode)
    ensures
        is_text_element(r, name@, text@),
{
    let mut e = XmlElement::new(name);
    e.children.push(XmlNode::Text(text.to_owned()));
    XmlNode::Element(e)
}

/// A plain element called `name` that holds the character data `text`.
pub fn cdata_element(name: &str, text: &str) -> (r: XmlNode)
    ensures
        is_cdata_element(r, name@, text@),
{
    let mut e = XmlElement::new(name);
    e.children.push(XmlNode::CData(text.to_owned()));
    XmlNode::Element(e)
}

} // verus!
