//! An element tree read from XML text with `roxmltree`, and a cursor over an
//! element's children that the `GenApi` parsers consume in order.

use vstd::prelude::*;
use roxmltree::Document as XmlText;
use roxmltree::Error as XmlSyntaxError;

verus! {

#[verifier::external_type_specification]
#[verifier::external_body]
pub struct ExXmlError(XmlSyntaxError);

/// One node of a document, as `roxmltree` reads it: its id and its
/// parent's id in the document, whether it is an element, its local name,
/// its text and its attributes in order.
#[derive(Debug, Clone)]
pub struct XmlNodeRecord {
    pub id: usize,
    pub parent: Option<usize>,
    pub is_element: bool,
    pub tag: String,
    pub text: Option<String>,
    pub attributes: Vec<(String, String)>,
}

/// Whether `roxmltree` accepts `text` as an XML document.
pub uninterp spec fn xml_well_formed(text: Seq<char>) -> bool;

/// The root element of the document `text` and its descendants, in
/// document order, as `roxmltree` reads them.
pub uninterp spec fn xml_nodes(text: Seq<char>) -> Seq<XmlNodeRecord>;

/// Parses XML text with `roxmltree::Document::parse` and lists the root
/// element and its descendants (`roxmltree::Node::descendants`, which
/// starts with the node itself). Whether it succeeds, and the nodes, depend
/// on the text alone.
#[verifier::external_body]
fn xml_parse_nodes(text: &str) -> (r: Result<Vec<XmlNodeRecord>, XmlSyntaxError>)
    ensures
        r is Ok <==> xml_well_formed(text@),
        r matches Ok(v) ==> (v@ == xml_nodes(text@) && v@.len() >= 1 && v@[0].is_element),
{
    let doc = XmlText::parse(text)?;
    Ok(doc.root_element().descendants().map(|n| XmlNodeRecord {
        id: n.id().get_usize(),
        parent: n.parent().map(|p| p.id().get_usize()),
        is_element: n.is_element(),
        tag: n.tag_name().name().to_string(),
        text: n.text().map(str::to_string),
        attributes: n.attributes().map(|a| (a.name().to_string(), a.value().to_string())).collect(),
    }).collect())
}

/// An XML element: its local name, text, attributes and child elements.
#[derive(Debug)]
pub struct XmlElement {
    pub tag: String,
    pub text: Option<String>,
    pub attributes: Vec<(String, String)>,
    pub children: Vec<XmlElement>,
}

/// A parsed XML document.
#[derive(Debug)]
pub struct Document {
    pub root: XmlElement,
}

/// Positions, from `from` on, of the element nodes whose parent is `id`.
pub open spec fn child_positions(recs: Seq<XmlNodeRecord>, id: usize, from: int) -> Seq<int>
    decreases recs.len() - from,
{
    if from < 0 || from >= recs.len() {
        Seq::empty()
    } else if recs[from].is_element && recs[from].parent == Some(id) {
        seq![from] + child_positions(recs, id, from + 1)
    } else {
        child_positions(recs, id, from + 1)
    }
}

/// Whether `e` is the element at position `i` of the node list, with its
/// name, text and attributes and, `levels` deep, its child elements in
/// order.
pub open spec fn element_of(e: XmlElement, recs: Seq<XmlNodeRecord>, i: int, levels: nat) -> bool
    decreases levels, child_positions(recs, recs[i].id, 0).len() + 1,
{
    &&& 0 <= i < recs.len()
    &&& e.tag == recs[i].tag
    &&& e.text == recs[i].text
    &&& e.attributes@ == recs[i].attributes@
    &&& if levels == 0 {
        e.children@.len() == 0
    } else {
        let kids = child_positions(recs, recs[i].id, 0);
        e.children@.len() == kids.len() && children_of(e.children@, recs, kids, 0, (levels - 1) as nat)
    }
}

/// Whether the elements `es` from `j` on are the elements at positions
/// `kids`, `levels` deep.
pub open spec fn children_of(
    es: Seq<XmlElement>,
    recs: Seq<XmlNodeRecord>,
    kids: Seq<int>,
    j: int,
    levels: nat,
) -> bool
    decreases levels + 1, kids.len() - j,
{
    if j < 0 || j >= kids.len() {
        true
    } else {
        element_of(es[j], recs, kids[j], levels) && children_of(es, recs, kids, j + 1, levels)
    }
}

proof fn lemma_children_of(es: Seq<XmlElement>, recs: Seq<XmlNodeRecord>, kids: Seq<int>, j: int, levels: nat)
    requires
        0 <= j,
        es.len() == kids.len(),
        forall|k: int| j <= k < kids.len() ==> #[trigger] element_of(es[k], recs, kids[k], levels),
    ensures
        children_of(es, recs, kids, j, levels),
    decreases kids.len() - j,
{
    if j < kids.len() {
        assert(element_of(es[j], recs, kids[j], levels));
        lemma_children_of(es, recs, kids, j + 1, levels);
    }
}

fn clone_attributes(attrs: &Vec<(String, String)>) -> (r: Vec<(String, String)>)
    ensures
        r@ == attrs@,
{
    let mut r: Vec<(String, String)> = Vec::new();
    let mut k: usize = 0;
    while k < attrs.len()
        invariant
            k <= attrs@.len(),
            r@ == attrs@.subrange(0, k as int),
        decreases attrs@.len() - k,
    {
        let pair = (attrs[k].0.clone(), attrs[k].1.clone());
        r.push(pair);
        proof {
            assert(attrs@.subrange(0, k + 1) == attrs@.subrange(0, k as int).push(attrs@[k as int]));
        }
        k += 1;
    }
    proof {
        assert(attrs@.subrange(0, attrs@.len() as int) == attrs@);
    }
    r
}

/// The element at position `i` of the node list, `levels` deep.
fn build_element(recs: &Vec<XmlNodeRecord>, i: usize, levels: usize) -> (r: XmlElement)
    requires
        i < recs@.len(),
    ensures
        element_of(r, recs@, i as int, levels as nat),
    decreases levels,
{
    let id = recs[i].id;
    let mut children: Vec<XmlElement> = Vec::new();
    let ghost kids = child_positions(recs@, id, 0);
    let ghost mut found: Seq<int> = Seq::empty();
    if levels > 0 {
        let mut j: usize = 0;
        while j < recs.len()
            invariant
                j <= recs@.len(),
                levels > 0,
                id == recs@[i as int].id,
                kids == child_positions(recs@, id, 0),
                found + child_positions(recs@, id, j as int) == kids,
                children@.len() == found.len(),
                forall|k: int| 0 <= k < found.len() ==> #[trigger] element_of(
                    children@[k],
                    recs@,
                    found[k],
                    (levels - 1) as nat,
                ),
            decreases recs@.len() - j,
        {
            let is_child = recs[j].is_element && match recs[j].parent {
                Some(p) => p == id,
                None => false,
            };
            if is_child {
                let child = build_element(recs, j, levels - 1);
                children.push(child);
                proof {
                    found = found.push(j as int);
                    assert(seq![j as int] + child_positions(recs@, id, j + 1) == child_positions(recs@, id, j as int));
                }
            }
            j += 1;
        }
        proof {
            assert(child_positions(recs@, id, j as int) == Seq::<int>::empty());
            assert(found == kids);
            lemma_children_of(children@, recs@, kids, 0, (levels - 1) as nat);
        }
    }
    let text = match &recs[i].text {
        Some(t) => Some(t.clone()),
        None => None,
    };
    let r = XmlElement {
        tag: recs[i].tag.clone(),
        text,
        attributes: clone_attributes(&recs[i].attributes),
        children,
    };
    r
}

impl Document {
    /// Parses XML text into an element tree: the root element of the text,
    /// with its descendants.
    pub fn from_str(text: &str) -> (r: Result<Document, XmlSyntaxError>)
        ensures
            r is Ok <==> xml_well_formed(text@),
            r matches Ok(d) ==> element_of(d.root, xml_nodes(text@), 0, xml_nodes(text@).len()),
    {
        let recs = match xml_parse_nodes(text) {
            Ok(v) => v,
            Err(e) => {
                return Err(e);
            },
        };
        let root = build_element(&recs, 0, recs.len());
        Ok(Document { root })
    }
}


/// Whether two strings hold the same characters.
pub fn str_eq(a: &str, b: &str) -> (r: bool)
    ensures
        r == (a@ == b@),
{
    let sa = a.to_string();
    let sb = b.to_string();
    sa == sb
}

/// The text of an element, empty where it has none.
pub open spec fn text_of(e: XmlElement) -> Seq<char> {
    match e.text {
        Some(t) => t@,
        None => Seq::empty(),
    }
}

/// The value of the first attribute named `name`, from index `i`.
pub open spec fn attribute_value(attrs: Seq<(String, String)>, name: Seq<char>, i: int) -> Option<Seq<char>>
    decreases attrs.len() - i,
{
    if i < 0 || i >= attrs.len() {
        None
    } else if attrs[i].0@ == name {
        Some(attrs[i].1@)
    } else {
        attribute_value(attrs, name, i + 1)
    }
}

/// Whether the child of `e` at `cursor` exists and is named `tag`.
pub open spec fn child_is(e: XmlElement, cursor: int, tag: Seq<char>) -> bool {
    0 <= cursor < e.children@.len() && e.children@[cursor].tag@ == tag
}

/// A cursor over the child elements of an element, which parsers consume
/// in order.
#[derive(Debug)]
pub struct Node<'a> {
    pub elem: &'a XmlElement,
    pub cursor: usize,
}

impl Document {
    /// A cursor at the first child of the root element.
    pub fn root_node(&self) -> (r: Node<'_>)
        ensures
            *r.elem == self.root,
            r.cursor == 0,
    {
        Node { elem: &self.root, cursor: 0 }
    }
}

impl<'a> Node<'a> {
    /// The element's local name.
    pub fn tag_name(&self) -> (r: &'a str)
        ensures
            r@ == self.elem.tag@,
    {
        self.elem.tag.as_str()
    }

    /// The element's text, empty where it has none.
    pub fn text(&self) -> (r: &'a str)
        ensures
            r@ == text_of(*self.elem),
    {
        match &self.elem.text {
            Some(t) => t.as_str(),
            None => {
                proof {
                    reveal_strlit("");
                }
                ""
            },
        }
    }

    /// The value of the element's attribute `name`.
    pub fn attribute_of(&self, name: &str) -> (r: Option<&'a str>)
        ensures
            match attribute_value(self.elem.attributes@, name@, 0) {
                Some(v) => r matches Some(s) && s@ == v,
                None => r is None,
            },
    {
        let attrs = &self.elem.attributes;
        let mut i: usize = 0;
        while i < attrs.len()
            invariant
                i <= attrs@.len(),
                attrs@ == self.elem.attributes@,
                attribute_value(attrs@, name@, 0) == attribute_value(attrs@, name@, i as int),
            decreases attrs@.len() - i,
        {
            if str_eq(attrs[i].0.as_str(), name) {
                return Some(attrs[i].1.as_str());
            }
            i += 1;
        }
        None
    }

    /// A cursor over the next child, which is consumed.
    pub fn next(&mut self) -> (r: Option<Node<'a>>)
        ensures
            final(self).elem == old(self).elem,
            old(self).cursor < old(self).elem.children@.len() ==> (r matches Some(n) && *n.elem
                == old(self).elem.children@[old(self).cursor as int] && n.cursor == 0 && final(self).cursor
                == old(self).cursor + 1),
            old(self).cursor >= old(self).elem.children@.len() ==> r is None && final(self).cursor
                == old(self).cursor,
    {
        if self.cursor < self.elem.children.len() {
            let child = &self.elem.children[self.cursor];
            self.cursor = self.cursor + 1;
            Some(Node { elem: child, cursor: 0 })
        } else {
            None
        }
    }

    /// A cursor over the next child if it is named `tag`, which is then
    /// consumed.
    pub fn next_if(&mut self, tag: &str) -> (r: Option<Node<'a>>)
        ensures
            final(self).elem == old(self).elem,
            child_is(*old(self).elem, old(self).cursor as int, tag@) ==> (r matches Some(n) && *n.elem
                == old(self).elem.children@[old(self).cursor as int] && n.cursor == 0 && final(self).cursor
                == old(self).cursor + 1),
            !child_is(*old(self).elem, old(self).cursor as int, tag@) ==> r is None && final(self).cursor
                == old(self).cursor,
    {
        if self.cursor < self.elem.children.len() && str_eq(self.elem.children[self.cursor].tag.as_str(), tag) {
            self.next()
        } else {
            None
        }
    }

    /// The text of the next child, which is consumed.
    pub fn next_text(&mut self) -> (r: Option<&'a str>)
        ensures
            final(self).elem == old(self).elem,
            old(self).cursor < old(self).elem.children@.len() ==> (r matches Some(t) && t@ == text_of(
                old(self).elem.children@[old(self).cursor as int],
            ) && final(self).cursor == old(self).cursor + 1),
            old(self).cursor >= old(self).elem.children@.len() ==> r is None && final(self).cursor
                == old(self).cursor,
    {
        match self.next() {
            Some(n) => Some(n.text()),
            None => None,
        }
    }
}

} // verus!
