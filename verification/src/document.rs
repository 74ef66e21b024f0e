//! A manifest as a tree of plain values, and the parser that produces it.

use vstd::prelude::*;
use crate::text::str_eq;

verus! {

/// One value of a document.
#[derive(Debug)]
pub enum Node {
    Boolean(bool),
    Integer(i64),
    /// A real number, held as the bits of its IEEE 754 double.
    Real(u64),
    Text(String),
    /// A date or time, in the words of the document.
    Moment(String),
    List(Vec<Node>),
    /// Keys with their values, in the order of the parser.
    Table(Vec<(String, Node)>),
}

/// The mathematical value of a [`Node`].
pub enum NodeView {
    Boolean(bool),
    Integer(int),
    Real(nat),
    Text(Seq<char>),
    Moment(Seq<char>),
    List(Seq<NodeView>),
    Table(Seq<(Seq<char>, NodeView)>),
}

/// The mathematical value of a document tree.
pub open spec fn node_view(node: Node) -> NodeView
    decreases node,
{
    match node {
        Node::Boolean(b) => NodeView::Boolean(b),
        Node::Integer(i) => NodeView::Integer(i as int),
        Node::Real(bits) => NodeView::Real(bits as nat),
        Node::Text(s) => NodeView::Text(s@),
        Node::Moment(s) => NodeView::Moment(s@),
        Node::List(items) => NodeView::List(
            Seq::new(
                items.len() as nat,
                |i: int|
                    if 0 <= i < items.len() {
                        node_view(items[i])
                    } else {
                        arbitrary()
                    },
            ),
        ),
        Node::Table(entries) => NodeView::Table(
            Seq::new(
                entries.len() as nat,
                |i: int|
                    if 0 <= i < entries.len() {
                        (entries[i].0@, node_view(entries[i].1))
                    } else {
                        arbitrary()
                    },
            ),
        ),
    }
}

impl View for Node {
    type V = NodeView;

    open spec fn view(&self) -> NodeView {
        node_view(*self)
    }
}

/// The view of a node, one level deep.
pub proof fn lemma_node_view(node: Node)
    ensures
        match node {
            Node::Boolean(b) => node@ == NodeView::Boolean(b),
            Node::Integer(i) => node@ == NodeView::Integer(i as int),
            Node::Real(bits) => node@ == NodeView::Real(bits as nat),
            Node::Text(s) => node@ == NodeView::Text(s@),
            Node::Moment(s) => node@ == NodeView::Moment(s@),
            Node::List(items) => {
                &&& node@ is List
                &&& node@->List_0.len() == items.len()
                &&& forall|i: int| 0 <= i < items.len() ==> node@->List_0[i] == #[trigger] items[i]@
            },
            Node::Table(entries) => {
                &&& node@ is Table
                &&& node@->Table_0.len() == entries.len()
                &&& forall|i: int|
                    0 <= i < entries.len() ==> node@->Table_0[i] == (
                        (#[trigger] entries[i]).0@,
                        entries[i].1@,
                    )
            },
        },
{
}

impl NodeView {
    /// The value under `key`: that of the first entry with this key, if the
    /// value is a table that has one.
    pub open spec fn get(self, key: Seq<char>) -> Option<NodeView> {
        match self {
            NodeView::Table(entries) => first_under(entries, key),
            _ => None,
        }
    }

    /// The text of a text value.
    pub open spec fn text(self) -> Option<Seq<char>> {
        match self {
            NodeView::Text(s) => Some(s),
            _ => None,
        }
    }
}

/// Whether no key occurs twice among the entries of a table.
pub open spec fn keys_distinct<T>(entries: Seq<(Seq<char>, T)>) -> bool {
    forall|i: int, j: int|
        0 <= i < j < entries.len() ==> (#[trigger] entries[i]).0 != (#[trigger] entries[j]).0
}

/// Whether every table of a tree, at any depth, names each of its keys once.
pub open spec fn tables_distinct(v: NodeView) -> bool
    decreases v,
{
    match v {
        NodeView::List(items) => forall|i: int|
            0 <= i < items.len() ==> tables_distinct(#[trigger] items[i]),
        NodeView::Table(entries) => {
            &&& keys_distinct(entries)
            &&& forall|i: int|
                0 <= i < entries.len() ==> tables_distinct((#[trigger] entries[i]).1)
        },
        _ => true,
    }
}

/// The value of the first entry of `entries` whose key is `key`.
pub open spec fn first_under(entries: Seq<(Seq<char>, NodeView)>, key: Seq<char>) -> Option<
    NodeView,
>
    decreases entries.len(),
{
    if entries.len() == 0 {
        None
    } else if entries.first().0 == key {
        Some(entries.first().1)
    } else {
        first_under(entries.drop_first(), key)
    }
}

/// Nothing is found where no entry has the key.
pub proof fn lemma_first_under_absent(entries: Seq<(Seq<char>, NodeView)>, key: Seq<char>)
    requires
        forall|i: int| 0 <= i < entries.len() ==> entries[i].0 != key,
    ensures
        first_under(entries, key) is None,
    decreases entries.len(),
{
    if entries.len() > 0 {
        let rest = entries.drop_first();
        assert forall|i: int| 0 <= i < rest.len() implies rest[i].0 != key by {
            assert(rest[i] == entries[i + 1]);
        }
        lemma_first_under_absent(rest, key);
    }
}

/// The first entry with the key is the one that is found.
pub proof fn lemma_first_under_found(
    entries: Seq<(Seq<char>, NodeView)>,
    key: Seq<char>,
    at: int,
)
    requires
        0 <= at < entries.len(),
        entries[at].0 == key,
        forall|i: int| 0 <= i < at ==> entries[i].0 != key,
    ensures
        first_under(entries, key) == Some(entries[at].1),
    decreases entries.len(),
{
    if at > 0 {
        let rest = entries.drop_first();
        assert(rest[at - 1] == entries[at]);
        assert forall|i: int| 0 <= i < at - 1 implies rest[i].0 != key by {
            assert(rest[i] == entries[i + 1]);
        }
        lemma_first_under_found(rest, key, at - 1);
    }
}

/// What is found under a key is the value of one of the entries.
pub proof fn lemma_first_under_is_entry(entries: Seq<(Seq<char>, NodeView)>, key: Seq<char>)
    requires
        first_under(entries, key) is Some,
    ensures
        exists|i: int|
            0 <= i < entries.len() && (#[trigger] entries[i]) == (
                key,
                first_under(entries, key)->0,
            ),
    decreases entries.len(),
{
    if entries.first().0 == key {
        assert(entries[0] == (key, first_under(entries, key)->0));
    } else {
        let rest = entries.drop_first();
        lemma_first_under_is_entry(rest, key);
        let i = choose|i: int|
            0 <= i < rest.len() && (#[trigger] rest[i]) == (key, first_under(rest, key)->0);
        assert(entries[i + 1] == rest[i]);
    }
}

/// In a tree whose tables name each key once, so does every value that a
/// key leads to.
pub proof fn lemma_child_tables_distinct(v: NodeView, key: Seq<char>)
    requires
        tables_distinct(v),
        v.get(key) is Some,
    ensures
        tables_distinct(v.get(key)->0),
{
    lemma_first_under_is_entry(v->Table_0, key);
}

impl Node {
    /// The value under `key`, if this is a table that has the key.
    pub fn get(&self, key: &str) -> (r: Option<&Node>)
        ensures
            match r {
                Some(v) => self@.get(key@) == Some(v@),
                None => self@.get(key@) is None,
            },
    {
        match self {
            Node::Table(entries) => {
                let mut i: usize = 0;
                while i < entries.len()
                    invariant
                        i <= entries.len(),
                        self@ matches NodeView::Table(es) && es.len() == entries.len(),
                        *self == Node::Table(*entries),
                        forall|k: int|
                            0 <= k < i ==> (#[trigger] self@->Table_0[k]).0 != key@,
                    decreases entries.len() - i,
                {
                    if str_eq(entries[i].0.as_str(), key) {
                        proof {
                            lemma_first_under_found(self@->Table_0, key@, i as int);
                        }
                        return Some(&entries[i].1);
                    }
                    i += 1;
                }
                proof {
                    lemma_first_under_absent(self@->Table_0, key@);
                }
                None
            },
            _ => None,
        }
    }

    /// The text of a text value.
    pub fn as_text(&self) -> (r: Option<&String>)
        ensures
            match r {
                Some(s) => self@.text() == Some(s@),
                None => self@.text() is None,
            },
    {
        match self {
            Node::Text(s) => Some(s),
            _ => None,
        }
    }

    /// A copy of this value.
    pub fn duplicate(&self) -> (r: Node)
        ensures
            r@ == self@,
        decreases self,
    {
        match self {
            Node::Boolean(b) => Node::Boolean(*b),
            Node::Integer(i) => Node::Integer(*i),
            Node::Real(bits) => Node::Real(*bits),
            Node::Text(s) => Node::Text(s.clone()),
            Node::Moment(s) => Node::Moment(s.clone()),
            Node::List(items) => {
                let mut out: Vec<Node> = Vec::new();
                let mut i: usize = 0;
                while i < items.len()
                    invariant
                        i <= items.len(),
                        out.len() == i,
                        *self == Node::List(*items),
                        forall|k: int| 0 <= k < i ==> out[k]@ == items[k]@,
                    decreases items.len() - i,
                {
                    assert(decreases_to!(items => items[i as int]));
                    assert(decreases_to!(*self => self->List_0));
                    out.push(items[i].duplicate());
                    i += 1;
                }
                let r = Node::List(out);
                assert(r@->List_0 =~= self@->List_0);
                r
            },
            Node::Table(entries) => {
                let mut out: Vec<(String, Node)> = Vec::new();
                let mut i: usize = 0;
                while i < entries.len()
                    invariant
                        i <= entries.len(),
                        out.len() == i,
                        *self == Node::Table(*entries),
                        forall|k: int|
                            0 <= k < i ==> out[k].0@ == entries[k].0@ && out[k].1@
                                == entries[k].1@,
                    decreases entries.len() - i,
                {
                    assert(decreases_to!(*self => self->Table_0));
                    assert(decreases_to!(entries[i as int] => entries[i as int].1));
                    out.push((entries[i].0.clone(), entries[i].1.duplicate()));
                    i += 1;
                }
                let r = Node::Table(out);
                assert(r@->Table_0 =~= self@->Table_0);
                r
            },
        }
    }
}

/// The parser's own document tree.
#[verifier::external_type_specification]
#[verifier::external_body]
pub struct ExTomlValue(toml::Value);

/// The parser's account of why a text is no document.
#[verifier::external_type_specification]
#[verifier::external_body]
pub struct ExTomlError(toml::de::Error);

/// The document that the TOML parser reads from `text`, or `None` where
/// the text is not well-formed.
pub uninterp spec fn toml_document(text: Seq<char>) -> Option<NodeView>;

/// What a tree of the parser holds: strings, integers and booleans as
/// they are, a float as its bits, a datetime as its text, arrays and
/// tables with their members in the parser's order.
pub uninterp spec fn toml_contents(tree: toml::Value) -> NodeView;

/// Moves a tree of `toml::Value` into a [`Node`], variant by variant and
/// member by member. The contract says that the node holds what the tree
/// held, and that no table of it has a key twice: the tables of a
/// `toml::Value` are maps.
#[verifier::external_body]
fn from_toml(tree: toml::Value) -> (r: Node)
    ensures
        r@ == toml_contents(tree),
        tables_distinct(r@),
{
    match tree {
        toml::Value::String(s) => Node::Text(s),
        toml::Value::Integer(i) => Node::Integer(i),
        toml::Value::Float(x) => Node::Real(x.to_bits()),
        toml::Value::Boolean(b) => Node::Boolean(b),
        toml::Value::Datetime(d) => Node::Moment(d.to_string()),
        toml::Value::Array(a) => Node::List(a.into_iter().map(from_toml).collect()),
        toml::Value::Table(t) => Node::Table(
            t.into_iter().map(|(k, v)| (k, from_toml(v))).collect(),
        ),
    }
}

/// Calls `toml::from_str` for a `toml::Value`. The contract names the
/// outcome: the tree read from the text, which depends on the text alone.
#[verifier::external_body]
fn parse_toml(text: &str) -> (r: Result<toml::Value, toml::de::Error>)
    ensures
        match r {
            Ok(tree) => toml_document(text@) == Some(toml_contents(tree)),
            Err(_) => toml_document(text@) is None,
        },
{
    toml::from_str::<toml::Value>(text)
}

/// Reads a document from its text. No table of a document has a key twice.
pub fn parse(text: &str) -> (r: Option<Node>)
    ensures
        match r {
            Some(v) => toml_document(text@) == Some(v@) && tables_distinct(v@),
            None => toml_document(text@) is None,
        },
{
    match parse_toml(text) {
        Ok(tree) => Some(from_toml(tree)),
        Err(_) => None,
    }
}

} // verus!
