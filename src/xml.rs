//! A parsed XML document held as a flat table of nodes, and the lookups
//! that the gateway replies need: a named child, its text, an attribute.
use vstd::prelude::*;

verus! {

/// One node of a document: an element, a text, a comment, ...
pub struct XmlNode {
    /// Index of the parent node; only the document root has none.
    pub parent: Option<usize>,
    pub element: bool,
    /// Local tag name; empty for nodes that are not elements.
    pub name: String,
    /// For an element, the text of its first child when that child is a text.
    pub text: Option<String>,
    pub attributes: Vec<(String, String)>,
}

/// Nodes in document order; index 0 is the document root.
pub struct XmlDoc {
    pub nodes: Vec<XmlNode>,
}

pub struct XmlNodeModel {
    pub parent: Option<usize>,
    pub element: bool,
    pub name: Seq<char>,
    pub text: Option<Seq<char>>,
    pub attributes: Seq<(Seq<char>, Seq<char>)>,
}

impl View for XmlNode {
    type V = XmlNodeModel;

    open spec fn view(&self) -> XmlNodeModel {
        XmlNodeModel {
            parent: self.parent,
            element: self.element,
            name: self.name@,
            text: match self.text {
                Some(t) => Some(t@),
                None => None,
            },
            attributes: self.attributes@.map_values(|a: (String, String)| (a.0@, a.1@)),
        }
    }
}

impl View for XmlDoc {
    type V = Seq<XmlNodeModel>;

    open spec fn view(&self) -> Seq<XmlNodeModel> {
        self.nodes@.map_values(|n: XmlNode| n@)
    }
}

/// The node table of the XML document `body`; `None` where `body` is no
/// well-formed document.
pub uninterp spec fn xml_nodes_of(body: Seq<char>) -> Option<Seq<XmlNodeModel>>;

pub enum XmlError {
    Syntax,
    MissingChild(String),
    MissingText(String),
    MissingAttribute(String),
}

pub open spec fn is_child_named(doc: XmlDoc, p: usize, j: int, name: Seq<char>) -> bool {
    &&& doc.nodes@[j].parent == Some(p)
    &&& doc.nodes@[j].element
    &&& doc.nodes@[j].name@ == name
}

/// First element among nodes `j..` that is a child of `p` named `name`.
pub open spec fn child_from(doc: XmlDoc, p: usize, name: Seq<char>, j: int) -> Option<int>
    decreases doc.nodes@.len() - j,
{
    if j < 0 || j >= doc.nodes@.len() {
        None
    } else if is_child_named(doc, p, j, name) {
        Some(j)
    } else {
        child_from(doc, p, name, j + 1)
    }
}

proof fn lemma_child_from_found(doc: XmlDoc, p: usize, name: Seq<char>, j: int)
    ensures
        child_from(doc, p, name, j) matches Some(k) ==> j <= k < doc.nodes@.len()
            && is_child_named(doc, p, k, name),
    decreases doc.nodes@.len() - j,
{
    if 0 <= j < doc.nodes@.len() && !is_child_named(doc, p, j, name) {
        lemma_child_from_found(doc, p, name, j + 1);
    }
}

/// First child element of `p` named `name`.
pub open spec fn child(doc: XmlDoc, p: usize, name: Seq<char>) -> Option<int> {
    child_from(doc, p, name, 0)
}

pub open spec fn text_of(doc: XmlDoc, j: int) -> Option<Seq<char>> {
    match doc.nodes@[j].text {
        Some(t) => Some(t@),
        None => None,
    }
}

/// Text of the first child element of `p` named `name`.
pub open spec fn child_text(doc: XmlDoc, p: usize, name: Seq<char>) -> Option<Seq<char>> {
    match child(doc, p, name) {
        Some(j) => text_of(doc, j),
        None => None,
    }
}

/// Value of the first attribute among `attrs[i..]` named `name`.
pub open spec fn attr_from(attrs: Seq<(String, String)>, name: Seq<char>, i: int) -> Option<
    Seq<char>,
>
    decreases attrs.len() - i,
{
    if i < 0 || i >= attrs.len() {
        None
    } else if attrs[i].0@ == name {
        Some(attrs[i].1@)
    } else {
        attr_from(attrs, name, i + 1)
    }
}

pub open spec fn attribute(doc: XmlDoc, p: int, name: Seq<char>) -> Option<Seq<char>> {
    attr_from(doc.nodes@[p].attributes@, name, 0)
}

/// All nodes among `j..` whose parent is `p`, in document order.
pub open spec fn children_from(doc: XmlDoc, p: usize, j: int) -> Seq<usize>
    decreases doc.nodes@.len() - j,
{
    if j < 0 || j >= doc.nodes@.len() {
        seq![]
    } else if doc.nodes@[j].parent == Some(p) {
        seq![j as usize] + children_from(doc, p, j + 1)
    } else {
        children_from(doc, p, j + 1)
    }
}

pub open spec fn children(doc: XmlDoc, p: usize) -> Seq<usize> {
    children_from(doc, p, 0)
}

/// Whether two texts are equal.
pub fn same_text(a: &str, b: &str) -> (r: bool)
    ensures
        r == (a@ == b@),
{
    let n = a.unicode_len();
    if n != b.unicode_len() {
        return false;
    }
    let mut i: usize = 0;
    while i < n
        invariant
            n == a@.len(),
            n == b@.len(),
            i <= n,
            a@.take(i as int) == b@.take(i as int),
        decreases n - i,
    {
        if a.get_char(i) != b.get_char(i) {
            assert(a@[i as int] != b@[i as int]);
            return false;
        }
        assert(a@.take(i + 1) =~= a@.take(i as int).push(a@[i as int]));
        assert(b@.take(i + 1) =~= b@.take(i as int).push(b@[i as int]));
        i = i + 1;
    }
    assert(a@.take(n as int) =~= a@);
    assert(b@.take(n as int) =~= b@);
    true
}

/// Index of the first child element of `node` named `name`.
pub fn get_child(doc: &XmlDoc, node: usize, name: &str) -> (r: Result<usize, XmlError>)
    ensures
        match child(*doc, node, name@) {
            Some(j) => r == Ok::<usize, XmlError>(j as usize),
            None => r matches Err(XmlError::MissingChild(n)) && n@ == name@,
        },
        r is Ok ==> r->Ok_0 < doc.nodes@.len() && child(*doc, node, name@) == Some(
            r->Ok_0 as int,
        ),
{
    proof {
        lemma_child_from_found(*doc, node, name@, 0);
    }
    let n = doc.nodes.len();
    let mut j: usize = 0;
    while j < n
        invariant
            n == doc.nodes@.len(),
            j <= n,
            child(*doc, node, name@) == child_from(*doc, node, name@, j as int),
        decreases n - j,
    {
        let nd = &doc.nodes[j];
        let is_child = match nd.parent {
            Some(q) => q == node,
            None => false,
        };
        if is_child && nd.element && same_text(nd.name.as_str(), name) {
            return Ok(j);
        }
        j = j + 1;
    }
    Err(XmlError::MissingChild(String::from_str(name)))
}

/// Text of the first child element of `node` named `name`.
pub fn get_child_text(doc: &XmlDoc, node: usize, name: &str) -> (r: Result<String, XmlError>)
    ensures
        match child(*doc, node, name@) {
            Some(j) => match text_of(*doc, j) {
                Some(t) => r is Ok && r->Ok_0@ == t,
                None => r matches Err(XmlError::MissingText(n)) && n@ == name@,
            },
            None => r matches Err(XmlError::MissingChild(n)) && n@ == name@,
        },
{
    let j = match get_child(doc, node, name) {
        Ok(j) => j,
        Err(e) => return Err(e),
    };
    assert(child(*doc, node, name@) == Some(j as int));
    match &doc.nodes[j].text {
        Some(t) => Ok(t.clone()),
        None => Err(XmlError::MissingText(String::from_str(name))),
    }
}

/// Value of the attribute `name` of `node`.
pub fn get_attrib(doc: &XmlDoc, node: usize, name: &str) -> (r: Result<String, XmlError>)
    requires
        node < doc.nodes@.len(),
    ensures
        match attribute(*doc, node as int, name@) {
            Some(v) => r is Ok && r->Ok_0@ == v,
            None => r matches Err(XmlError::MissingAttribute(n)) && n@ == name@,
        },
{
    let attrs = &doc.nodes[node].attributes;
    let n = attrs.len();
    let mut i: usize = 0;
    while i < n
        invariant
            n == attrs@.len(),
            attrs == doc.nodes@[node as int].attributes,
            i <= n,
            attribute(*doc, node as int, name@) == attr_from(attrs@, name@, i as int),
        decreases n - i,
    {
        if same_text(attrs[i].0.as_str(), name) {
            return Ok(attrs[i].1.clone());
        }
        i = i + 1;
    }
    Err(XmlError::MissingAttribute(String::from_str(name)))
}

/// Indices of all children of `node`, in document order.
pub fn child_indices(doc: &XmlDoc, node: usize) -> (r: Vec<usize>)
    ensures
        r@ == children(*doc, node),
        forall|i: int| 0 <= i < r@.len() ==> (#[trigger] r@[i]) < doc.nodes@.len(),
{
    proof {
        lemma_children_in_range(*doc, node, 0);
    }
    let n = doc.nodes.len();
    let mut out: Vec<usize> = Vec::new();
    let mut j: usize = 0;
    while j < n
        invariant
            n == doc.nodes@.len(),
            j <= n,
            children(*doc, node) == out@ + children_from(*doc, node, j as int),
        decreases n - j,
    {
        let is_child = match doc.nodes[j].parent {
            Some(q) => q == node,
            None => false,
        };
        if is_child {
            assert(out@.push(j) + children_from(*doc, node, j + 1) =~= out@ + (seq![j] + children_from(*doc, node, j + 1)));
            out.push(j);
        }
        j = j + 1;
    }
    assert(out@ + children_from(*doc, node, j as int) =~= out@);
    out
}

proof fn lemma_children_in_range(doc: XmlDoc, p: usize, j: int)
    ensures
        forall|i: int|
            0 <= i < children_from(doc, p, j).len() ==> (#[trigger] children_from(doc, p, j)[i])
                < doc.nodes@.len(),
    decreases doc.nodes@.len() - j,
{
    if 0 <= j < doc.nodes@.len() {
        lemma_children_in_range(doc, p, j + 1);
        if doc.nodes@[j].parent == Some(p) {
            let s = seq![j as usize] + children_from(doc, p, j + 1);
            assert forall|i: int| 0 <= i < s.len() implies #[trigger] s[i] < doc.nodes@.len() by {
                if i > 0 {
                    assert(s[i] == children_from(doc, p, j + 1)[i - 1]);
                }
            }
        }
    }
}

/// Relies on roxmltree::Document::parse, and on its node ids counting the
/// nodes in document order from the root on.
#[verifier::external_body]
pub(crate) fn parse_document(body: &str) -> (r: Result<XmlDoc, XmlError>)
    ensures
        r is Ok <==> xml_nodes_of(body@) is Some,
        r is Ok ==> r->Ok_0@ == xml_nodes_of(body@)->0,
        r is Err ==> r matches Err(XmlError::Syntax),
{
    let doc = roxmltree::Document::parse(body).map_err(|_| XmlError::Syntax)?;
    let nodes = (0u32..).map_while(|i| doc.get_node(roxmltree::NodeId::new(i))).map(|n| XmlNode {
        parent: n.parent().map(|p| p.id().get_usize()),
        element: n.is_element(),
        name: n.tag_name().name().to_string(),
        text: n.text().map(|t| t.to_string()),
        attributes: n.attributes().map(|a| (a.name().to_string(), a.value().to_string())).collect(),
    }).collect();
    Ok(XmlDoc { nodes })
}

} // verus!
