//! `GenApi` XML: the node store that names nodes, the parts of a node that
//! every node kind shares, the `String` node, and the parser entry point.

use vstd::prelude::*;
use crate::xml::{Document, Node, XmlElement, attribute_value, child_is, element_of, text_of, str_eq, xml_nodes, xml_well_formed};
use std::str::Utf8Error;
use roxmltree::Error as XmlSyntaxError;
use vstd::utf8::{valid_utf8, decode_utf8};

verus! {

/// Identifies a node of the store.
#[derive(Debug, Clone, Copy, PartialEq, Eq, Hash, Structural)]
pub struct NodeId(pub usize);

/// Node names in the order they were first seen; a node's id is the index
/// of its name.
#[derive(Debug)]
pub struct NodeStore {
    names: Vec<String>,
}

impl View for NodeStore {
    type V = Seq<Seq<char>>;

    closed spec fn view(&self) -> Seq<Seq<char>> {
        self.names@.map_values(|s: String| s@)
    }
}

/// The store after looking up `name`, and the name's id: a known name keeps
/// its id; a new name is appended and gets the next id.
pub open spec fn intern(names: Seq<Seq<char>>, name: Seq<char>) -> (Seq<Seq<char>>, NodeId) {
    if exists|i: int| 0 <= i < names.len() && names[i] == name {
        (names, NodeId((choose|i: int| 0 <= i < names.len() && names[i] == name) as usize))
    } else {
        (names.push(name), NodeId(names.len() as usize))
    }
}

/// Looking a name up a second time changes nothing and gives the same id.
pub proof fn lemma_intern_idempotent(names: Seq<Seq<char>>, name: Seq<char>)
    requires
        names.no_duplicates(),
    ensures
        intern(names, name).0.no_duplicates(),
        intern(intern(names, name).0, name) == intern(names, name),
{
    let (n1, id1) = intern(names, name);
    if !(exists|i: int| 0 <= i < names.len() && names[i] == name) {
        assert(n1[names.len() as int] == name);
        assert forall|i: int, j: int| 0 <= i < n1.len() && 0 <= j < n1.len() && i != j implies n1[i]
            != n1[j] by {}
        let k = choose|i: int| 0 <= i < n1.len() && n1[i] == name;
        assert(k == names.len());
    } else {
        let k = choose|i: int| 0 <= i < names.len() && names[i] == name;
        assert(names[k] == name);
    }
}

/// The id a name gets names it: looking the id up in the store afterwards
/// gives the name back.
pub proof fn lemma_intern_names_id(names: Seq<Seq<char>>, name: Seq<char>)
    requires
        names.len() < usize::MAX,
    ensures
        ({
            let (after, id) = intern(names, name);
            0 <= id.0 < after.len() && after[id.0 as int] == name
        }),
{
    if exists|i: int| 0 <= i < names.len() && names[i] == name {
        let k = choose|i: int| 0 <= i < names.len() && names[i] == name;
        assert(names[k] == name);
    } else {
        assert(names.push(name)[names.len() as int] == name);
    }
}

/// Different names get different ids, and a name keeps its id when other
/// names are added after it.
pub proof fn lemma_intern_distinct(names: Seq<Seq<char>>, a: Seq<char>, b: Seq<char>)
    requires
        names.no_duplicates(),
        names.len() + 2 < usize::MAX,
        a != b,
    ensures
        intern(names, a).1 != intern(intern(names, a).0, b).1,
        intern(intern(intern(names, a).0, b).0, a).1 == intern(names, a).1,
{
    let (n1, ia) = intern(names, a);
    lemma_intern_idempotent(names, a);
    let (n2, ib) = intern(n1, b);
    lemma_intern_idempotent(n1, b);
    let ka = if exists|i: int| 0 <= i < names.len() && names[i] == a {
        choose|i: int| 0 <= i < names.len() && names[i] == a
    } else {
        names.len() as int
    };
    assert(n1[ka] == a && ia.0 == ka);
    let kb = if exists|i: int| 0 <= i < n1.len() && n1[i] == b {
        choose|i: int| 0 <= i < n1.len() && n1[i] == b
    } else {
        n1.len() as int
    };
    assert(n2[kb] == b && ib.0 == kb);
    assert(n2[ka] == a);
    let k2 = choose|i: int| 0 <= i < n2.len() && n2[i] == a;
    assert(n2[k2] == a);
}

impl NodeStore {
    #[verifier::type_invariant]
    closed spec fn wf(self) -> bool {
        self@.no_duplicates()
    }

    /// An empty store.
    pub fn new() -> (r: NodeStore)
        ensures
            r@ == Seq::<Seq<char>>::empty(),
    {
        let r = NodeStore { names: Vec::new() };
        assert(r@ =~= Seq::<Seq<char>>::empty());
        r
    }

    /// Number of names in the store.
    pub fn len(&self) -> (r: usize)
        ensures
            r == self@.len(),
    {
        self.names.len()
    }

    /// The id of `name`, which is added to the store if it is new.
    pub fn id_by_name(&mut self, name: &str) -> (r: NodeId)
        ensures
            (final(self)@, r) == intern(old(self)@, name@),
            final(self)@.no_duplicates(),
    {
        proof {
            use_type_invariant(&*self);
        }
        let ghost names = self@;
        let n = self.names.len();
        let mut i: usize = 0;
        while i < n
            invariant
                i <= n == self.names@.len(),
                names == self@,
                names.no_duplicates(),
                forall|j: int| 0 <= j < i ==> names[j] != name@,
            decreases n - i,
        {
            if str_eq(self.names[i].as_str(), name) {
                proof {
                    assert(names[i as int] == name@);
                    let k = choose|j: int| 0 <= j < names.len() && names[j] == name@;
                    assert(k == i);
                }
                return NodeId(i);
            }
            i += 1;
        }
        let s = name.to_string();
        proof {
            let after = self.names@.push(s).map_values(|t: String| t@);
            assert(after =~= names.push(name@));
            assert forall|a: int, b: int| 0 <= a < after.len() && 0 <= b < after.len() && a != b implies after[a]
                != after[b] by {}
        }
        let mut v: Vec<String> = Vec::new();
        proof {
            assert(v@.map_values(|t: String| t@) =~= Seq::<Seq<char>>::empty());
        }
        std::mem::swap(&mut v, &mut self.names);
        v.push(s);
        self.names = v;
        proof {
            assert(self@ =~= names.push(name@));
        }
        NodeId(n)
    }

    /// The name of the node `id`.
    pub fn name_by_id(&self, id: NodeId) -> (r: Option<&str>)
        ensures
            id.0 < self@.len() ==> (r matches Some(s) && s@ == self@[id.0 as int]),
            id.0 >= self@.len() ==> r is None,
    {
        if id.0 < self.names.len() {
            Some(self.names[id.0].as_str())
        } else {
            None
        }
    }
}


/// Namespace of a node.
#[derive(Debug, Clone, Copy, PartialEq, Eq, Structural)]
pub enum NameSpace {
    Standard,
    Custom,
}

/// Who a node is meant for.
#[derive(Debug, Clone, Copy, PartialEq, Eq, Structural)]
pub enum Visibility {
    Beginner,
    Expert,
    Guru,
    Invisible,
}

/// An immediate value or a reference to the node that holds it.
#[derive(Debug, Clone, PartialEq, Eq)]
pub enum ImmOrPNode<T> {
    Imm(T),
    PNode(NodeId),
}

/// Attributes every node has.
#[derive(Debug, Clone)]
pub struct NodeAttributeBase {
    pub id: NodeId,
    pub name_space: NameSpace,
}

/// Elements every node may have, in this order.
#[derive(Debug, Clone)]
pub struct NodeElementBase {
    pub tooltip: Option<String>,
    pub description: Option<String>,
    pub display_name: Option<String>,
    pub visibility: Visibility,
}

/// The common parts of a node.
pub struct NodeBase<'a> {
    pub attr_base: &'a NodeAttributeBase,
    pub elem_base: &'a NodeElementBase,
}

impl<'a> NodeBase<'a> {
    pub fn new(attr_base: &'a NodeAttributeBase, elem_base: &'a NodeElementBase) -> (r: NodeBase<'a>)
        ensures
            r.attr_base == attr_base,
            r.elem_base == elem_base,
    {
        NodeBase { attr_base, elem_base }
    }

    /// Id of the node.
    pub fn id(&self) -> (r: NodeId)
        ensures
            r == self.attr_base.id,
    {
        self.attr_base.id
    }

    /// Namespace of the node.
    pub fn name_space(&self) -> (r: NameSpace)
        ensures
            r == self.attr_base.name_space,
    {
        self.attr_base.name_space
    }

    /// Tooltip of the node.
    pub fn tooltip(&self) -> (r: Option<&'a str>)
        ensures
            match self.elem_base.tooltip {
                Some(t) => r matches Some(s) && s@ == t@,
                None => r is None,
            },
    {
        match &self.elem_base.tooltip {
            Some(t) => Some(t.as_str()),
            None => None,
        }
    }

    /// Visibility of the node.
    pub fn visibility(&self) -> (r: Visibility)
        ensures
            r == self.elem_base.visibility,
    {
        self.elem_base.visibility
    }
}

/// The namespace an attribute value names; anything but `Standard` is
/// custom, as is a missing attribute.
pub open spec fn name_space_of(v: Option<Seq<char>>) -> NameSpace {
    if v == Some("Standard"@) {
        NameSpace::Standard
    } else {
        NameSpace::Custom
    }
}

/// The visibility a text names; unknown texts mean `Beginner`.
pub open spec fn visibility_of(t: Seq<char>) -> Visibility {
    if t == "Expert"@ {
        Visibility::Expert
    } else if t == "Guru"@ {
        Visibility::Guru
    } else if t == "Invisible"@ {
        Visibility::Invisible
    } else {
        Visibility::Beginner
    }
}

/// The text of the child at `cur` if it is named `tag`, and the cursor
/// after it.
pub open spec fn optional_child_text(e: XmlElement, cur: int, tag: Seq<char>) -> (Option<Seq<char>>, int) {
    if child_is(e, cur, tag) {
        (Some(text_of(e.children@[cur])), cur + 1)
    } else {
        (None, cur)
    }
}

pub open spec fn opt_view(s: Option<String>) -> Option<Seq<char>> {
    match s {
        Some(t) => Some(t@),
        None => None,
    }
}

/// Ids of the `pInvalidator` children from `cur` on, the store after
/// naming them, and the cursor after them.
pub open spec fn invalidators_spec(e: XmlElement, cur: int, names: Seq<Seq<char>>) -> (Seq<NodeId>, Seq<Seq<char>>, int)
    decreases e.children@.len() - cur,
{
    if child_is(e, cur, "pInvalidator"@) {
        let (n1, id) = intern(names, text_of(e.children@[cur]));
        let (ids, n2, c2) = invalidators_spec(e, cur + 1, n1);
        (seq![id] + ids, n2, c2)
    } else {
        (Seq::empty(), names, cur)
    }
}

/// What a `String` node holds, for contracts.
pub ghost struct StringNodeView {
    pub id: NodeId,
    pub name_space: NameSpace,
    pub tooltip: Option<Seq<char>>,
    pub description: Option<Seq<char>>,
    pub display_name: Option<Seq<char>>,
    pub visibility: Visibility,
    pub p_invalidators: Seq<NodeId>,
    pub streamable: bool,
    pub value: ImmOrPNode<Seq<char>>,
}

/// A `String` node read from element `e` with the cursor at `cur` and the
/// store holding `names`: the `Name` and `NameSpace` attributes; the
/// optional `ToolTip`, `Description`, `DisplayName` and `Visibility`
/// children; the `pInvalidator` children; an optional `Streamable` child
/// (`Yes` is true); then a `Value` child with the string, else the next
/// child names the node holding the value. Also gives the store and the
/// cursor afterwards; `None` where there is no `Name` attribute or no child
/// left for the value.
pub open spec fn string_node_spec(e: XmlElement, cur: int, names: Seq<Seq<char>>) -> Option<(StringNodeView, Seq<Seq<char>>, int)> {
    match attribute_value(e.attributes@, "Name"@, 0) {
        None => None,
        Some(name) => {
            let (n1, id) = intern(names, name);
            let name_space = name_space_of(attribute_value(e.attributes@, "NameSpace"@, 0));
            let (tooltip, c1) = optional_child_text(e, cur, "ToolTip"@);
            let (description, c2) = optional_child_text(e, c1, "Description"@);
            let (display_name, c3) = optional_child_text(e, c2, "DisplayName"@);
            let (vis, c4) = optional_child_text(e, c3, "Visibility"@);
            let visibility = match vis {
                Some(t) => visibility_of(t),
                None => Visibility::Beginner,
            };
            let (p_invalidators, n2, c5) = invalidators_spec(e, c4, n1);
            let (st, c6) = optional_child_text(e, c5, "Streamable"@);
            let streamable = st == Some("Yes"@);
            if child_is(e, c6, "Value"@) {
                Some((StringNodeView {
                    id, name_space, tooltip, description, display_name, visibility, p_invalidators,
                    streamable,
                    value: ImmOrPNode::Imm(text_of(e.children@[c6])),
                }, n2, c6 + 1))
            } else if 0 <= c6 < e.children@.len() {
                let (n3, pid) = intern(n2, text_of(e.children@[c6]));
                Some((StringNodeView {
                    id, name_space, tooltip, description, display_name, visibility, p_invalidators,
                    streamable,
                    value: ImmOrPNode::PNode(pid),
                }, n3, c6 + 1))
            } else {
                None
            }
        },
    }
}

/// A `String` node read from an element is streamable only where a
/// `Streamable` child of the element has the text `Yes`: where every
/// `Streamable` child says something else, such as `No`, or there is none,
/// the node is not streamable.
pub proof fn lemma_string_streamable_means_yes(e: XmlElement, cur: int, names: Seq<Seq<char>>)
    ensures
        string_node_spec(e, cur, names) matches Some((v, _, _)) ==> (v.streamable ==> exists|k: int|
            0 <= k < e.children@.len() && #[trigger] e.children@[k].tag@ == "Streamable"@ && text_of(
                e.children@[k],
            ) == "Yes"@),
        string_node_spec(e, cur, names) matches Some((v, _, _)) ==> ((forall|k: int|
            0 <= k < e.children@.len() && #[trigger] e.children@[k].tag@ == "Streamable"@ ==> text_of(
                e.children@[k],
            ) != "Yes"@) ==> !v.streamable),
{
    if let Some(name) = attribute_value(e.attributes@, "Name"@, 0) {
        let (n1, id) = intern(names, name);
        let (tooltip, c1) = optional_child_text(e, cur, "ToolTip"@);
        let (description, c2) = optional_child_text(e, c1, "Description"@);
        let (display_name, c3) = optional_child_text(e, c2, "DisplayName"@);
        let (vis, c4) = optional_child_text(e, c3, "Visibility"@);
        let (p_invalidators, n2, c5) = invalidators_spec(e, c4, n1);
        let (st, c6) = optional_child_text(e, c5, "Streamable"@);
        if st == Some("Yes"@) {
            assert(e.children@[c5].tag@ == "Streamable"@);
        }
    }
}

/// A `String` node.
#[derive(Debug, Clone)]
pub struct StringNode {
    attr_base: NodeAttributeBase,
    elem_base: NodeElementBase,
    p_invalidators: Vec<NodeId>,
    streamable: bool,
    value: ImmOrPNode<String>,
}

impl View for StringNode {
    type V = StringNodeView;

    closed spec fn view(&self) -> StringNodeView {
        StringNodeView {
            id: self.attr_base.id,
            name_space: self.attr_base.name_space,
            tooltip: opt_view(self.elem_base.tooltip),
            description: opt_view(self.elem_base.description),
            display_name: opt_view(self.elem_base.display_name),
            visibility: self.elem_base.visibility,
            p_invalidators: self.p_invalidators@,
            streamable: self.streamable,
            value: match self.value {
                ImmOrPNode::Imm(s) => ImmOrPNode::Imm(s@),
                ImmOrPNode::PNode(id) => ImmOrPNode::PNode(id),
            },
        }
    }
}

fn optional_text(node: &mut Node<'_>, tag: &str) -> (r: Option<String>)
    ensures
        final(node).elem == old(node).elem,
        (opt_view(r), final(node).cursor as int) == optional_child_text(*old(node).elem, old(node).cursor as int, tag@),
{
    match node.next_if(tag) {
        Some(n) => Some(n.text().to_string()),
        None => None,
    }
}

impl NodeAttributeBase {
    /// Reads the attributes every node has, naming the node in the store.
    pub fn parse(node: &Node<'_>, store: &mut NodeStore) -> (r: NodeAttributeBase)
        requires
            attribute_value(node.elem.attributes@, "Name"@, 0) is Some,
        ensures
            (final(store)@, r.id) == intern(
                old(store)@,
                attribute_value(node.elem.attributes@, "Name"@, 0).unwrap(),
            ),
            final(store)@.no_duplicates(),
            r.name_space == name_space_of(attribute_value(node.elem.attributes@, "NameSpace"@, 0)),
    {
        let name = match node.attribute_of("Name") {
            Some(n) => n,
            None => {
                proof {
                    assert(false);
                }
                ""
            },
        };
        let id = store.id_by_name(name);
        let name_space = match node.attribute_of("NameSpace") {
            Some(ns) => if str_eq(ns, "Standard") {
                NameSpace::Standard
            } else {
                NameSpace::Custom
            },
            None => NameSpace::Custom,
        };
        NodeAttributeBase { id, name_space }
    }
}


impl NodeElementBase {
    /// Reads the optional elements every node may have.
    pub fn parse(node: &mut Node<'_>) -> (r: NodeElementBase)
        ensures
            final(node).elem == old(node).elem,
            ({
                let e = *old(node).elem;
                let (tooltip, c1) = optional_child_text(e, old(node).cursor as int, "ToolTip"@);
                let (description, c2) = optional_child_text(e, c1, "Description"@);
                let (display_name, c3) = optional_child_text(e, c2, "DisplayName"@);
                let (vis, c4) = optional_child_text(e, c3, "Visibility"@);
                &&& opt_view(r.tooltip) == tooltip
                &&& opt_view(r.description) == description
                &&& opt_view(r.display_name) == display_name
                &&& r.visibility == match vis {
                    Some(t) => visibility_of(t),
                    None => Visibility::Beginner,
                }
                &&& final(node).cursor == c4
            }),
    {
        let tooltip = optional_text(node, "ToolTip");
        let description = optional_text(node, "Description");
        let display_name = optional_text(node, "DisplayName");
        let visibility = match node.next_if("Visibility") {
            Some(n) => {
                let t = n.text();
                if str_eq(t, "Expert") {
                    Visibility::Expert
                } else if str_eq(t, "Guru") {
                    Visibility::Guru
                } else if str_eq(t, "Invisible") {
                    Visibility::Invisible
                } else {
                    Visibility::Beginner
                }
            },
            None => Visibility::Beginner,
        };
        NodeElementBase { tooltip, description, display_name, visibility }
    }
}

fn parse_invalidators(node: &mut Node<'_>, store: &mut NodeStore) -> (r: Vec<NodeId>)
    ensures
        final(node).elem == old(node).elem,
        (r@, final(store)@, final(node).cursor as int) == invalidators_spec(
            *old(node).elem,
            old(node).cursor as int,
            old(store)@,
        ),
        final(store)@.no_duplicates(),
    decreases old(node).elem.children@.len() - old(node).cursor,
{
    proof {
        use_type_invariant(&*store);
    }
    match node.next_if("pInvalidator") {
        Some(n) => {
            let id = store.id_by_name(n.text());
            let rest = parse_invalidators(node, store);
            let mut ids: Vec<NodeId> = Vec::new();
            ids.push(id);
            let mut ids = ids;
            let mut rest = rest;
            let ghost rest_view = rest@;
            ids.append(&mut rest);
            proof {
                assert(ids@ =~= seq![id] + rest_view);
            }
            ids
        },
        None => Vec::new(),
    }
}

impl StringNode {
    /// The parts every node has.
    pub fn node_base(&self) -> (r: NodeBase<'_>)
        ensures
            r.attr_base.id == self@.id,
            r.attr_base.name_space == self@.name_space,
            opt_view(r.elem_base.tooltip) == self@.tooltip,
            opt_view(r.elem_base.description) == self@.description,
            opt_view(r.elem_base.display_name) == self@.display_name,
            r.elem_base.visibility == self@.visibility,
    {
        NodeBase::new(&self.attr_base, &self.elem_base)
    }

    /// Nodes whose change invalidates this node's cached value.
    pub fn p_invalidators(&self) -> (r: &[NodeId])
        ensures
            r@ == self@.p_invalidators,
    {
        self.p_invalidators.as_slice()
    }

    /// Whether the node may be streamed.
    pub fn streamable(&self) -> (r: bool)
        ensures
            r == self@.streamable,
    {
        self.streamable
    }

    /// The node's value, immediate or held by another node.
    pub fn value(&self) -> (r: &ImmOrPNode<String>)
        ensures
            match *r {
                ImmOrPNode::Imm(s) => self@.value == ImmOrPNode::Imm(s@),
                ImmOrPNode::PNode(id) => self@.value == ImmOrPNode::<Seq<char>>::PNode(id),
            },
    {
        &self.value
    }

    /// Reads a `String` node from the element under `node`.
    pub fn parse(node: &mut Node<'_>, store: &mut NodeStore) -> (r: StringNode)
        requires
            string_node_spec(*old(node).elem, old(node).cursor as int, old(store)@) is Some,
        ensures
            final(node).elem == old(node).elem,
            string_node_spec(*old(node).elem, old(node).cursor as int, old(store)@) == Some(
                (r@, final(store)@, final(node).cursor as int),
            ),
    {
        let attr_base = NodeAttributeBase::parse(node, store);
        let elem_base = NodeElementBase::parse(node);
        let p_invalidators = parse_invalidators(node, store);
        let streamable = match optional_text(node, "Streamable") {
            Some(t) => str_eq(t.as_str(), "Yes"),
            None => false,
        };
        let value = match node.next_if("Value") {
            Some(n) => ImmOrPNode::Imm(n.text().to_string()),
            None => {
                let text = match node.next_text() {
                    Some(t) => t,
                    None => {
                        proof {
                            assert(false);
                        }
                        ""
                    },
                };
                ImmOrPNode::PNode(store.id_by_name(text))
            },
        };
        StringNode { attr_base, elem_base, p_invalidators, streamable, value }
    }
}

/// Node kinds that can be read from an element.
pub trait Parse: Sized {
    /// Whether the node can be read from element `e` at cursor `cur` with a
    /// store holding `names`.
    spec fn parse_ok(e: XmlElement, cur: int, names: Seq<Seq<char>>) -> bool;

    /// Whether reading from element `e` at cursor `cur` with a store holding
    /// `names` gives `r`, with the store then holding `names_after` and the
    /// cursor at `cur_after`.
    spec fn parses_to(
        e: XmlElement,
        cur: int,
        names: Seq<Seq<char>>,
        r: Self,
        names_after: Seq<Seq<char>>,
        cur_after: int,
    ) -> bool;

    fn parse_node(node: &mut Node<'_>, store: &mut NodeStore) -> (r: Self)
        requires
            Self::parse_ok(*old(node).elem, old(node).cursor as int, old(store)@),
        ensures
            final(node).elem == old(node).elem,
            Self::parses_to(
                *old(node).elem,
                old(node).cursor as int,
                old(store)@,
                r,
                final(store)@,
                final(node).cursor as int,
            ),
    ;
}

impl Parse for StringNode {
    open spec fn parse_ok(e: XmlElement, cur: int, names: Seq<Seq<char>>) -> bool {
        string_node_spec(e, cur, names) is Some
    }

    open spec fn parses_to(
        e: XmlElement,
        cur: int,
        names: Seq<Seq<char>>,
        r: Self,
        names_after: Seq<Seq<char>>,
        cur_after: int,
    ) -> bool {
        string_node_spec(e, cur, names) == Some((r@, names_after, cur_after))
    }

    fn parse_node(node: &mut Node<'_>, store: &mut NodeStore) -> (r: StringNode) {
        StringNode::parse(node, store)
    }
}


impl<'a> Node<'a> {
    /// Reads a node of kind `T` from the element under the cursor.
    pub fn parse<T: Parse>(&mut self, store: &mut NodeStore) -> (r: T)
        requires
            T::parse_ok(*old(self).elem, old(self).cursor as int, old(store)@),
        ensures
            final(self).elem == old(self).elem,
            T::parses_to(
                *old(self).elem,
                old(self).cursor as int,
                old(store)@,
                r,
                final(store)@,
                final(self).cursor as int,
            ),
    {
        T::parse_node(self, store)
    }
}

/// Ids of the named children of `e` from `cur` on, and the store after
/// naming them; children without a `Name` attribute are skipped.
pub open spec fn child_ids_spec(e: XmlElement, cur: int, names: Seq<Seq<char>>) -> (Seq<NodeId>, Seq<Seq<char>>)
    decreases e.children@.len() - cur,
{
    if cur < 0 || cur >= e.children@.len() {
        (Seq::empty(), names)
    } else {
        match attribute_value(e.children@[cur].attributes@, "Name"@, 0) {
            Some(name) => {
                let (n1, id) = intern(names, name);
                let (ids, n2) = child_ids_spec(e, cur + 1, n1);
                (seq![id] + ids, n2)
            },
            None => child_ids_spec(e, cur + 1, names),
        }
    }
}

/// The root element of a `GenApi` description: its identifying attributes
/// and the nodes it declares.
#[derive(Debug, Clone)]
pub struct RegisterDescription {
    pub model_name: Option<String>,
    pub vendor_name: Option<String>,
    pub tooltip: Option<String>,
    pub standard_name_space: Option<String>,
    pub product_guid: Option<String>,
    pub version_guid: Option<String>,
    /// Ids of the declared nodes, in order.
    pub nodes: Vec<NodeId>,
}

fn attribute_string(node: &Node<'_>, name: &str) -> (r: Option<String>)
    ensures
        opt_view(r) == attribute_value(node.elem.attributes@, name@, 0),
{
    match node.attribute_of(name) {
        Some(v) => Some(v.to_string()),
        None => None,
    }
}

impl RegisterDescription {
    /// Reads the description's attributes and names each declared node.
    pub fn parse(node: &mut Node<'_>, store: &mut NodeStore) -> (r: RegisterDescription)
        ensures
            final(node).elem == old(node).elem,
            final(node).cursor == old(node).elem.children@.len() || final(node).cursor == old(node).cursor,
            (r.nodes@, final(store)@) == child_ids_spec(*old(node).elem, old(node).cursor as int, old(store)@),
            opt_view(r.model_name) == attribute_value(old(node).elem.attributes@, "ModelName"@, 0),
            opt_view(r.vendor_name) == attribute_value(old(node).elem.attributes@, "VendorName"@, 0),
            opt_view(r.tooltip) == attribute_value(old(node).elem.attributes@, "ToolTip"@, 0),
            opt_view(r.standard_name_space) == attribute_value(
                old(node).elem.attributes@,
                "StandardNameSpace"@,
                0,
            ),
            opt_view(r.product_guid) == attribute_value(old(node).elem.attributes@, "ProductGuid"@, 0),
            opt_view(r.version_guid) == attribute_value(old(node).elem.attributes@, "VersionGuid"@, 0),
    {
        let model_name = attribute_string(node, "ModelName");
        let vendor_name = attribute_string(node, "VendorName");
        let tooltip = attribute_string(node, "ToolTip");
        let standard_name_space = attribute_string(node, "StandardNameSpace");
        let product_guid = attribute_string(node, "ProductGuid");
        let version_guid = attribute_string(node, "VersionGuid");
        let ghost e = *node.elem;
        let ghost start = node.cursor as int;
        let ghost names0 = store@;
        let mut nodes: Vec<NodeId> = Vec::new();
        proof {
            assert(nodes@ + child_ids_spec(e, start, names0).0 =~= child_ids_spec(e, start, names0).0);
        }
        while node.cursor < node.elem.children.len()
            invariant
                *node.elem == e,
                start <= node.cursor <= e.children@.len() || node.cursor == start,
                ({
                    let (ids, n) = child_ids_spec(e, node.cursor as int, store@);
                    (nodes@ + ids, n) == child_ids_spec(e, start, names0)
                }),
            decreases e.children@.len() - node.cursor,
        {
            let ghost cur = node.cursor as int;
            let ghost before = nodes@;
            if let Some(child) = node.next() {
                match child.attribute_of("Name") {
                    Some(name) => {
                        let id = store.id_by_name(name);
                        nodes.push(id);
                        proof {
                            let (ids, n) = child_ids_spec(e, cur + 1, store@);
                            assert(nodes@ + ids =~= before + (seq![id] + ids));
                        }
                    },
                    None => {},
                }
            }
        }
        proof {
            assert(nodes@ + Seq::<NodeId>::empty() =~= nodes@);
        }
        RegisterDescription {
            model_name, vendor_name, tooltip, standard_name_space, product_guid, version_guid, nodes,
        }
    }
}

#[verifier::external_type_specification]
#[verifier::external_body]
pub struct ExUtf8Error(Utf8Error);

/// Errors of reading a `GenApi` description.
#[derive(Debug)]
pub enum ParseError {
    /// The input is not UTF-8.
    Utf8Error(Utf8Error),
    /// The input is not well formed XML.
    InvalidSyntax(XmlSyntaxError),
}

/// Decodes UTF-8 (`std::str::from_utf8`): succeeds exactly on valid UTF-8,
/// with the decoded characters.
#[verifier::external_body]
fn str_from_utf8(bytes: &[u8]) -> (r: Result<&str, Utf8Error>)
    ensures
        r is Ok <==> valid_utf8(bytes@),
        r matches Ok(s) ==> s@ == decode_utf8(bytes@),
{
    std::str::from_utf8(bytes)
}

/// Reads a `GenApi` description.
pub struct Parser<'a> {
    document: Document,
    text: &'a str,
}

impl<'a> Parser<'a> {
    /// Decodes the input and parses it as XML.
    pub fn from_bytes(input: &'a [u8]) -> (r: Result<Parser<'a>, ParseError>)
        ensures
            !valid_utf8(input@) ==> r matches Err(ParseError::Utf8Error(_)),
            valid_utf8(input@) && !xml_well_formed(decode_utf8(input@)) ==> r matches Err(
                ParseError::InvalidSyntax(_),
            ),
            valid_utf8(input@) && xml_well_formed(decode_utf8(input@)) ==> (r matches Ok(p)
                && p.inner_str_spec() == decode_utf8(input@) && element_of(
                p.root_spec(),
                xml_nodes(decode_utf8(input@)),
                0,
                xml_nodes(decode_utf8(input@)).len(),
            )),
    {
        let text = match str_from_utf8(input) {
            Ok(t) => t,
            Err(e) => {
                return Err(ParseError::Utf8Error(e));
            },
        };
        let document = match Document::from_str(text) {
            Ok(d) => d,
            Err(e) => {
                return Err(ParseError::InvalidSyntax(e));
            },
        };
        Ok(Parser { document, text })
    }

    pub closed spec fn inner_str_spec(&self) -> Seq<char> {
        self.text@
    }

    /// The root element of the parsed document.
    pub closed spec fn root_spec(&self) -> XmlElement {
        self.document.root
    }

    /// Reads the description and names its nodes in a new store: the store
    /// holds the names of the root's children, in order, each once.
    pub fn parse(&self) -> (r: Result<(RegisterDescription, NodeStore), ParseError>)
        ensures
            r matches Ok((desc, store)) && (desc.nodes@, store@) == child_ids_spec(
                self.root_spec(),
                0,
                Seq::empty(),
            ) && opt_view(desc.model_name) == attribute_value(self.root_spec().attributes@, "ModelName"@, 0)
                && opt_view(desc.vendor_name) == attribute_value(self.root_spec().attributes@, "VendorName"@, 0)
                && opt_view(desc.tooltip) == attribute_value(self.root_spec().attributes@, "ToolTip"@, 0)
                && opt_view(desc.standard_name_space) == attribute_value(
                self.root_spec().attributes@,
                "StandardNameSpace"@,
                0,
            ) && opt_view(desc.product_guid) == attribute_value(self.root_spec().attributes@, "ProductGuid"@, 0)
                && opt_view(desc.version_guid) == attribute_value(self.root_spec().attributes@, "VersionGuid"@, 0),
    {
        let mut store = NodeStore::new();
        let mut node = self.document.root_node();
        let desc = RegisterDescription::parse(&mut node, &mut store);
        Ok((desc, store))
    }

    /// The text of the description.
    pub fn inner_str(&self) -> (r: &'a str)
        ensures
            r@ == self.inner_str_spec(),
    {
        self.text
    }
}

} // verus!
