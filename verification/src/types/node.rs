//! Content-tree nodes and their JSON wire form.
//!
//! A page body is a sequence of nodes: plain text, or a tagged element with
//! an optional attribute and child nodes. On the wire a text node is a JSON
//! string and an element a JSON object; this module defines that mapping in
//! both directions and proves they invert each other.

use super::node_element::attr_key;
use super::node_element::attr_of_member;
use super::node_element::attr_value;
use super::node_element::lemma_attr_inverse;
use super::node_element::lemma_tag_name_inverse;
use super::node_element::tag_name;
use super::node_element::tag_of_name;
use super::node_element::AttrV;
use super::node_element::NodeElement;
use super::node_element::NodeElementAttr;
use super::node_element::NodeElementV;
use super::node_element::NodeTag;
use crate::json::printable;
use crate::json::printable_members;
use crate::json::printable_seq;
use crate::json::obj_lookup;
use crate::json::JsonV;
use vstd::prelude::*;

verus! {

broadcast use vstd::seq::group_seq_axioms, vstd::std_specs::vec::group_vec_axioms, vstd::string::group_string_axioms;

/// Mathematical model of a [`Node`].
pub enum NodeV {
    /// A text node.
    Text(Seq<char>),
    /// An element node.
    Element(NodeElementV),
}

/// A DOM node: a text node, or an element.
#[derive(Debug, PartialEq)]
#[allow(missing_docs)]
pub enum Node {
    String(String),
    NodeElement(NodeElement),
}

impl super::TelegraphType for Node {

}

/// Model of a node.
pub open spec fn node_v_of(n: Node) -> NodeV
    decreases n,
{
    match n {
        Node::String(s) => NodeV::Text(s@),
        Node::NodeElement(e) => NodeV::Element(elem_v_of(e)),
    }
}

/// Model of an element.
pub open spec fn elem_v_of(e: NodeElement) -> NodeElementV
    decreases e,
{
    NodeElementV {
        tag: e.tag,
        attrs: match e.attrs {
            Some(a) => Some(a@),
            None => None,
        },
        children: match e.children {
            Some(cs) => Some(nodes_v_of(cs@)),
            None => None,
        },
    }
}

/// Models of a sequence of nodes.
pub open spec fn nodes_v_of(s: Seq<Node>) -> Seq<NodeV>
    decreases s,
{
    if s.len() == 0 {
        Seq::empty()
    } else {
        seq![node_v_of(s[0])] + nodes_v_of(s.drop_first())
    }
}

impl View for Node {
    type V = NodeV;

    open spec fn view(&self) -> NodeV {
        node_v_of(*self)
    }
}

impl View for NodeElement {
    type V = NodeElementV;

    open spec fn view(&self) -> NodeElementV {
        elem_v_of(*self)
    }
}

/// The wire form of an optional tag.
pub open spec fn tag_jsonv(t: Option<NodeTag>) -> JsonV {
    match t {
        Some(t) => JsonV::Str(tag_name(t)),
        None => JsonV::Null,
    }
}

/// The wire form of an optional attribute.
pub open spec fn attrs_jsonv(a: Option<AttrV>) -> JsonV {
    match a {
        Some(a) => JsonV::Obj(seq![(attr_key(a), JsonV::Str(attr_value(a)))]),
        None => JsonV::Null,
    }
}

/// The wire form of a node.
pub open spec fn node_jsonv(n: NodeV) -> JsonV
    decreases n, 0int,
{
    match n {
        NodeV::Text(t) => JsonV::Str(t),
        NodeV::Element(e) => JsonV::Obj(elem_members(e)),
    }
}

/// The wire members of an element: `tag` and `attrs` always, `children` only
/// when present — never null where an array is expected.
pub open spec fn elem_members(e: NodeElementV) -> Seq<(Seq<char>, JsonV)>
    decreases e, 1int,
{
    let base = seq![("tag"@, tag_jsonv(e.tag)), ("attrs"@, attrs_jsonv(e.attrs))];
    match e.children {
        None => base,
        Some(cs) => base + seq![("children"@, JsonV::Arr(nodes_jsonv(cs)))],
    }
}

/// The wire forms of a sequence of nodes.
pub open spec fn nodes_jsonv(ns: Seq<NodeV>) -> Seq<JsonV>
    decreases ns, 0int,
{
    if ns.len() == 0 {
        Seq::empty()
    } else {
        seq![node_jsonv(ns[0])] + nodes_jsonv(ns.drop_first())
    }
}

/// The wire form of a whole content tree: a JSON array of nodes.
pub open spec fn content_jsonv(ns: Seq<NodeV>) -> JsonV {
    JsonV::Arr(nodes_jsonv(ns))
}

/// The optional tag a wire object's members hold, if well formed.
pub open spec fn tag_field(ms: Seq<(Seq<char>, JsonV)>) -> Option<Option<NodeTag>> {
    match obj_lookup(ms, "tag"@) {
        None => Some(None),
        Some(JsonV::Null) => Some(None),
        Some(JsonV::Str(s)) => match tag_of_name(s) {
            Some(t) => Some(Some(t)),
            None => None,
        },
        Some(_) => None,
    }
}

/// The optional attribute a wire object's members hold, if well formed.
pub open spec fn attrs_field(ms: Seq<(Seq<char>, JsonV)>) -> Option<Option<AttrV>> {
    match obj_lookup(ms, "attrs"@) {
        None => Some(None),
        Some(JsonV::Null) => Some(None),
        Some(JsonV::Obj(ams)) => if ams.len() == 1 {
            match attr_of_member(ams[0].0, ams[0].1) {
                Some(a) => Some(Some(a)),
                None => None,
            }
        } else {
            None
        },
        Some(_) => None,
    }
}

/// The node a wire value stands for, if well formed.
pub open spec fn node_of_jsonv(j: JsonV) -> Option<NodeV>
    decreases j, 1int,
{
    match j {
        JsonV::Str(t) => Some(NodeV::Text(t)),
        JsonV::Obj(ms) => match elem_of_members(ms) {
            Some(e) => Some(NodeV::Element(e)),
            None => None,
        },
        _ => None,
    }
}

/// The element a wire object's members stand for, if well formed.
pub open spec fn elem_of_members(ms: Seq<(Seq<char>, JsonV)>) -> Option<NodeElementV>
    decreases ms, 1int,
{
    match tag_field(ms) {
        None => None,
        Some(tag) => match attrs_field(ms) {
            None => None,
            Some(attrs) => match nodes_field(ms, "children"@) {
                None => None,
                Some(children) => Some(NodeElementV { tag, attrs, children }),
            },
        },
    }
}

/// The optional node list held by the first member with the given key:
/// absent or null is `None`; an array decodes each node; anything else is a
/// decode failure.
pub open spec fn nodes_field(ms: Seq<(Seq<char>, JsonV)>, key: Seq<char>) -> Option<
    Option<Seq<NodeV>>,
>
    decreases ms, 0int,
{
    if ms.len() == 0 {
        Some(None)
    } else if ms[0].0 == key {
        match ms[0].1 {
            JsonV::Null => Some(None),
            JsonV::Arr(cs) => match nodes_of_jsonvs(cs) {
                Some(ns) => Some(Some(ns)),
                None => None,
            },
            _ => None,
        }
    } else {
        nodes_field(ms.drop_first(), key)
    }
}

/// The nodes a sequence of wire values stands for, if all are well formed.
pub open spec fn nodes_of_jsonvs(js: Seq<JsonV>) -> Option<Seq<NodeV>>
    decreases js, 2int,
{
    if js.len() == 0 {
        Some(Seq::empty())
    } else {
        match node_of_jsonv(js[0]) {
            Some(n) => match nodes_of_jsonvs(js.drop_first()) {
                Some(ns) => Some(seq![n] + ns),
                None => None,
            },
            None => None,
        }
    }
}

/// The content tree a wire value stands for, if well formed.
pub open spec fn content_of_jsonv(j: JsonV) -> Option<Seq<NodeV>> {
    match j {
        JsonV::Arr(js) => nodes_of_jsonvs(js),
        _ => None,
    }
}

/// A node's wire form is printable, and decodes back to that node.
pub proof fn lemma_node_codec(n: NodeV)
    ensures
        printable(node_jsonv(n)),
        node_of_jsonv(node_jsonv(n)) == Some(n),
    decreases n,
{
    match n {
        NodeV::Text(t) => {
        },
        NodeV::Element(e) => {
            lemma_elem_codec(e);
        },
    }
}

/// An element's wire members are printable, and decode back to that
/// element.
pub proof fn lemma_elem_codec(e: NodeElementV)
    ensures
        printable_members(elem_members(e)),
        elem_of_members(elem_members(e)) == Some(e),
    decreases e,
{
    reveal_strlit("tag");
    reveal_strlit("attrs");
    reveal_strlit("children");
    assert("tag"@.len() == 3 && "attrs"@.len() == 5 && "children"@.len() == 8);
    let ms = elem_members(e);
    assert(printable(tag_jsonv(e.tag)));
    match e.attrs {
        Some(a) => {
            lemma_attr_inverse(a);
            assert(seq![(attr_key(a), JsonV::Str(attr_value(a)))][0] == (
                attr_key(a),
                JsonV::Str(attr_value(a)),
            ));
            assert(seq![(attr_key(a), JsonV::Str(attr_value(a)))].drop_first() =~= Seq::<
                (Seq<char>, JsonV),
            >::empty());
            assert(printable_members(Seq::<(Seq<char>, JsonV)>::empty()));
            assert(printable(JsonV::Str(attr_value(a))));
            assert(printable_members(seq![(attr_key(a), JsonV::Str(attr_value(a)))]));
            assert(printable(attrs_jsonv(e.attrs)));
        },
        None => {
            assert(printable(attrs_jsonv(e.attrs)));
        },
    }
    match e.tag {
        Some(t) => {
            lemma_tag_name_inverse(t);
        },
        None => {
        },
    }
    match e.children {
        None => {
            assert(ms == seq![("tag"@, tag_jsonv(e.tag)), ("attrs"@, attrs_jsonv(e.attrs))]);
            assert(ms[0] == ("tag"@, tag_jsonv(e.tag)));
            assert(ms[1] == ("attrs"@, attrs_jsonv(e.attrs)));
            assert(ms.drop_first() =~= seq![("attrs"@, attrs_jsonv(e.attrs))]);
            assert(ms.drop_first().drop_first() =~= Seq::<(Seq<char>, JsonV)>::empty());
            // integer freedom, back to front
            assert(printable_members(Seq::<(Seq<char>, JsonV)>::empty()));
            assert(printable_members(seq![("attrs"@, attrs_jsonv(e.attrs))]));
            assert(printable_members(ms));
            // field lookups
            assert(obj_lookup(ms, "tag"@) == Some(tag_jsonv(e.tag)));
            assert(obj_lookup(ms, "attrs"@) == obj_lookup(ms.drop_first(), "attrs"@));
            assert(obj_lookup(seq![("attrs"@, attrs_jsonv(e.attrs))], "attrs"@) == Some(
                attrs_jsonv(e.attrs),
            ));
            assert(nodes_field(ms, "children"@) == nodes_field(ms.drop_first(), "children"@));
            assert(nodes_field(seq![("attrs"@, attrs_jsonv(e.attrs))], "children"@)
                == nodes_field(Seq::<(Seq<char>, JsonV)>::empty(), "children"@));
            assert(nodes_field(ms, "children"@) == Some(None::<Seq<NodeV>>));
        },
        Some(cs) => {
            lemma_nodes_codec(cs);
            let tail = seq![
                ("attrs"@, attrs_jsonv(e.attrs)),
                ("children"@, JsonV::Arr(nodes_jsonv(cs))),
            ];
            let last = seq![("children"@, JsonV::Arr(nodes_jsonv(cs)))];
            assert(ms == seq![("tag"@, tag_jsonv(e.tag)), ("attrs"@, attrs_jsonv(e.attrs))]
                + last);
            assert(ms[0] == ("tag"@, tag_jsonv(e.tag)));
            assert(ms[1] == ("attrs"@, attrs_jsonv(e.attrs)));
            assert(ms[2] == ("children"@, JsonV::Arr(nodes_jsonv(cs))));
            assert(ms.len() == 3);
            assert(ms.drop_first() =~= tail);
            assert(tail.drop_first() =~= last);
            assert(last.drop_first() =~= Seq::<(Seq<char>, JsonV)>::empty());
            assert(tail[0] == ("attrs"@, attrs_jsonv(e.attrs)));
            assert(last[0] == ("children"@, JsonV::Arr(nodes_jsonv(cs))));
            // integer freedom, back to front
            assert(printable_members(Seq::<(Seq<char>, JsonV)>::empty()));
            assert(printable(JsonV::Arr(nodes_jsonv(cs))));
            assert(printable_members(last));
            assert(printable_members(tail));
            assert(printable_members(ms));
            // field lookups
            assert(obj_lookup(ms, "tag"@) == Some(tag_jsonv(e.tag)));
            assert(obj_lookup(ms, "attrs"@) == obj_lookup(tail, "attrs"@));
            assert(obj_lookup(tail, "attrs"@) == Some(attrs_jsonv(e.attrs)));
            assert(nodes_field(ms, "children"@) == nodes_field(tail, "children"@));
            assert(nodes_field(tail, "children"@) == nodes_field(last, "children"@));
            assert(nodes_field(last, "children"@) == Some(Some(cs)));
        },
    }
    assert(tag_field(ms) == Some(e.tag));
    assert(attrs_field(ms) == Some(e.attrs));
    assert(nodes_field(ms, "children"@) == Some(e.children));
}

/// A node sequence's wire forms are printable, and decode back to those
/// nodes.
pub proof fn lemma_nodes_codec(ns: Seq<NodeV>)
    ensures
        printable_seq(nodes_jsonv(ns)),
        nodes_of_jsonvs(nodes_jsonv(ns)) == Some(ns),
    decreases ns,
{
    if ns.len() == 0 {
    } else {
        lemma_node_codec(ns[0]);
        lemma_nodes_codec(ns.drop_first());
        assert(nodes_jsonv(ns)[0] == node_jsonv(ns[0]));
        assert(nodes_jsonv(ns).drop_first() =~= nodes_jsonv(ns.drop_first()));
        assert(seq![ns[0]] + ns.drop_first() =~= ns);
    }
}

/// The canonical string form of a content tree.
pub open spec fn content_string(ns: Seq<NodeV>) -> Seq<char> {
    crate::json::print_jsonv(content_jsonv(ns))
}

/// The content tree a string stands for, if it parses and every node is well
/// formed.
pub open spec fn content_parsed(s: Seq<char>) -> Option<Seq<NodeV>> {
    match crate::json::parse_json(s) {
        Some(j) => content_of_jsonv(j),
        None => None,
    }
}

/// The round-trip law for content trees: the string form of a tree decodes
/// back to a tree equal to the original, whatever text nodes, attributes and
/// nesting it holds.
pub proof fn lemma_content_round_trip(ns: Seq<NodeV>)
    ensures
        content_parsed(content_string(ns)) == Some(ns),
{
    lemma_nodes_codec(ns);
    crate::json::lemma_parse_print_round_trip(content_jsonv(ns));
}

/// Modelling a node sequence keeps its length.
pub proof fn lemma_nodes_v_of_len(s: Seq<Node>)
    ensures
        nodes_v_of(s).len() == s.len(),
    decreases s.len(),
{
    if s.len() > 0 {
        lemma_nodes_v_of_len(s.drop_first());
    }
}

/// Modelling a node sequence is pointwise.
pub proof fn lemma_nodes_v_of_index(s: Seq<Node>, i: int)
    requires
        0 <= i < s.len(),
    ensures
        nodes_v_of(s)[i] == node_v_of(s[i]),
    decreases i,
{
    lemma_nodes_v_of_len(s.drop_first());
    if i == 0 {
        assert((seq![node_v_of(s[0])] + nodes_v_of(s.drop_first()))[0] == node_v_of(s[0]));
    } else {
        lemma_nodes_v_of_index(s.drop_first(), i - 1);
        assert((seq![node_v_of(s[0])] + nodes_v_of(s.drop_first()))[i] == nodes_v_of(
            s.drop_first(),
        )[i - 1]);
    }
}

/// Modelling a node sequence distributes over appending one node.
pub proof fn lemma_nodes_v_of_snoc(s: Seq<Node>, x: Node)
    ensures
        nodes_v_of(s.push(x)) == nodes_v_of(s).push(node_v_of(x)),
    decreases s.len(),
{
    if s.len() == 0 {
        assert(s.push(x)[0] == x);
        assert(s.push(x).drop_first() =~= Seq::<Node>::empty());
        assert(nodes_v_of(s.push(x)) == seq![node_v_of(x)] + nodes_v_of(Seq::<Node>::empty()));
        assert(seq![node_v_of(x)] + Seq::<NodeV>::empty() =~= Seq::<NodeV>::empty().push(
            node_v_of(x),
        ));
    } else {
        assert(s.push(x)[0] == s[0]);
        assert(s.push(x).drop_first() =~= s.drop_first().push(x));
        lemma_nodes_v_of_snoc(s.drop_first(), x);
        lemma_nodes_v_of_len(s.drop_first());
        assert(nodes_v_of(s.push(x)) == seq![node_v_of(s[0])] + nodes_v_of(s.drop_first()).push(
            node_v_of(x),
        ));
        assert(seq![node_v_of(s[0])] + nodes_v_of(s.drop_first()).push(node_v_of(x)) =~= (seq![
            node_v_of(s[0]),
        ] + nodes_v_of(s.drop_first())).push(node_v_of(x)));
        assert(nodes_v_of(s) == seq![node_v_of(s[0])] + nodes_v_of(s.drop_first()));
    }
}

/// Printing a node sequence distributes over appending one node.
pub proof fn lemma_nodes_jsonv_snoc(ns: Seq<NodeV>, x: NodeV)
    ensures
        nodes_jsonv(ns.push(x)) == nodes_jsonv(ns).push(node_jsonv(x)),
    decreases ns.len(),
{
    if ns.len() == 0 {
        assert(ns.push(x)[0] == x);
        assert(ns.push(x).drop_first() =~= Seq::<NodeV>::empty());
        assert(nodes_jsonv(ns.push(x)) == seq![node_jsonv(x)] + nodes_jsonv(Seq::<NodeV>::empty()));
        assert(seq![node_jsonv(x)] + Seq::<JsonV>::empty() =~= Seq::<JsonV>::empty().push(
            node_jsonv(x),
        ));
    } else {
        assert(ns.push(x)[0] == ns[0]);
        assert(ns.push(x).drop_first() =~= ns.drop_first().push(x));
        lemma_nodes_jsonv_snoc(ns.drop_first(), x);
        lemma_nodes_jsonv_len(ns.drop_first());
        assert(nodes_jsonv(ns.push(x)) == seq![node_jsonv(ns[0])] + nodes_jsonv(
            ns.drop_first(),
        ).push(node_jsonv(x)));
        assert(seq![node_jsonv(ns[0])] + nodes_jsonv(ns.drop_first()).push(node_jsonv(x)) =~= (
        seq![node_jsonv(ns[0])] + nodes_jsonv(ns.drop_first())).push(node_jsonv(x)));
        assert(nodes_jsonv(ns) == seq![node_jsonv(ns[0])] + nodes_jsonv(ns.drop_first()));
    }
}

/// Printing a node sequence keeps its length.
pub proof fn lemma_nodes_jsonv_len(ns: Seq<NodeV>)
    ensures
        nodes_jsonv(ns).len() == ns.len(),
    decreases ns.len(),
{
    if ns.len() > 0 {
        lemma_nodes_jsonv_len(ns.drop_first());
    }
}

/// A value looked up among an object's members sits below those members in
/// the termination order.
pub proof fn lemma_obj_lookup_height(ms: Seq<(Seq<char>, JsonV)>, key: Seq<char>)
    requires
        obj_lookup(ms, key) is Some,
    ensures
        decreases_to!(ms => obj_lookup(ms, key)->0),
    decreases ms.len(),
{
    if ms[0].0 == key {
        assert(decreases_to!(ms => ms[0]));
        assert(decreases_to!(ms[0] => ms[0].1));
    } else {
        lemma_obj_lookup_height(ms.drop_first(), key);
        assert(decreases_to!(ms => ms.drop_first()));
    }
}

/// Encodes one node to its wire form.
pub fn node_to_json(n: &Node) -> (r: crate::json::JsonValue)
    ensures
        r@ == node_jsonv(n@),
    decreases n@,
{
    match n {
        Node::String(s) => crate::json::JsonValue::Str(crate::chars::str_to_chars(s.as_str())),
        Node::NodeElement(e) => {
            let mut ms: Vec<(Vec<char>, crate::json::JsonValue)> = Vec::new();
            let tagj = match &e.tag {
                Some(t) => crate::json::JsonValue::Str(super::node_element::tag_name_chars(t)),
                None => crate::json::JsonValue::Null,
            };
            ms.push((crate::chars::str_to_chars("tag"), tagj));
            let attrsj = match &e.attrs {
                Some(a) => {
                    let mut ams: Vec<(Vec<char>, crate::json::JsonValue)> = Vec::new();
                    match a {
                        NodeElementAttr::ID(v) => {
                            ams.push(
                                (
                                    crate::chars::str_to_chars("id"),
                                    crate::json::JsonValue::Str(
                                        crate::chars::str_to_chars(v.as_str()),
                                    ),
                                ),
                            );
                        },
                        NodeElementAttr::Href(v) => {
                            ams.push(
                                (
                                    crate::chars::str_to_chars("href"),
                                    crate::json::JsonValue::Str(
                                        crate::chars::str_to_chars(v.as_str()),
                                    ),
                                ),
                            );
                        },
                        NodeElementAttr::Src(v) => {
                            ams.push(
                                (
                                    crate::chars::str_to_chars("src"),
                                    crate::json::JsonValue::Str(
                                        crate::chars::str_to_chars(v.as_str()),
                                    ),
                                ),
                            );
                        },
                    }
                    proof {
                        assert(ams@ =~= seq![ams@[0]]);
                        assert(ams@.drop_first() =~= Seq::<
                            (Vec<char>, crate::json::JsonValue),
                        >::empty());
                        assert(crate::json::jsonv_of_members(
                            Seq::<(Vec<char>, crate::json::JsonValue)>::empty(),
                        ) == Seq::<(Seq<char>, JsonV)>::empty());
                        assert(crate::json::jsonv_of_members(ams@) == seq![
                            (ams@[0].0@, crate::json::jsonv_of(ams@[0].1)),
                        ] + Seq::<(Seq<char>, JsonV)>::empty());
                        assert(seq![(ams@[0].0@, crate::json::jsonv_of(ams@[0].1))] + Seq::<
                            (Seq<char>, JsonV),
                        >::empty() =~= seq![(ams@[0].0@, crate::json::jsonv_of(ams@[0].1))]);
                    }
                    crate::json::JsonValue::Obj(ams)
                },
                None => crate::json::JsonValue::Null,
            };
            ms.push((crate::chars::str_to_chars("attrs"), attrsj));
            match &e.children {
                Some(cs) => {
                    let cn = cs.len();
                    let mut js: Vec<crate::json::JsonValue> = Vec::new();
                    let mut k: usize = 0;
                    while k < cn
                        invariant
                            n@ == NodeV::Element(elem_v_of(*e)),
                            e.children matches Some(cs2) && cs2 == *cs,
                            elem_v_of(*e).children == Some(nodes_v_of(cs@)),
                            cn == cs@.len(),
                            k <= cn,
                            crate::json::jsonv_of_seq(js@) == nodes_jsonv(
                                nodes_v_of(cs@.take(k as int)),
                            ),
                        decreases cn - k,
                    {
                        proof {
                            lemma_nodes_v_of_len(cs@);
                            lemma_nodes_v_of_index(cs@, k as int);
                            assert(decreases_to!(n@ => n@->Element_0));
                            assert(decreases_to!(n@->Element_0 => n@->Element_0.children));
                            assert(decreases_to!(n@->Element_0.children => n@->Element_0.children->0));
                            assert(decreases_to!(n@->Element_0.children->0 => n@->Element_0.children->0[k as int]));
                        }
                        let jv = node_to_json(&cs[k]);
                        let ghost js0 = js@;
                        js.push(jv);
                        proof {
                            assert(js@ =~= js0.push(js@[js@.len() - 1]));
                            crate::json::lemma_jsonv_of_seq_snoc(js0, js@[js@.len() - 1]);
                            assert(cs@.take(k + 1 as int) =~= cs@.take(k as int).push(
                                cs@[k as int],
                            ));
                            lemma_nodes_v_of_snoc(cs@.take(k as int), cs@[k as int]);
                            lemma_nodes_jsonv_snoc(
                                nodes_v_of(cs@.take(k as int)),
                                node_v_of(cs@[k as int]),
                            );
                        }
                        k = k + 1;
                    }
                    proof {
                        assert(cs@.take(cn as int) =~= cs@);
                    }
                    ms.push((crate::chars::str_to_chars("children"), crate::json::JsonValue::Arr(js)));
                    proof {
                        assert(ms@ =~= seq![ms@[0], ms@[1], ms@[2]]);
                        assert(ms@.drop_first() =~= seq![ms@[1], ms@[2]]);
                        assert(ms@.drop_first().drop_first() =~= seq![ms@[2]]);
                        assert(ms@.drop_first().drop_first().drop_first() =~= Seq::<
                            (Vec<char>, crate::json::JsonValue),
                        >::empty());
                        assert(crate::json::jsonv_of_members(
                            Seq::<(Vec<char>, crate::json::JsonValue)>::empty(),
                        ) == Seq::<(Seq<char>, JsonV)>::empty());
                        assert(crate::json::jsonv_of_members(ms@.drop_first().drop_first()) == seq![
                            (ms@[2].0@, crate::json::jsonv_of(ms@[2].1)),
                        ] + Seq::<(Seq<char>, JsonV)>::empty());
                        assert(crate::json::jsonv_of_members(ms@.drop_first()) == seq![
                            (ms@[1].0@, crate::json::jsonv_of(ms@[1].1)),
                        ] + crate::json::jsonv_of_members(ms@.drop_first().drop_first()));
                        assert(crate::json::jsonv_of_members(ms@) == seq![
                            (ms@[0].0@, crate::json::jsonv_of(ms@[0].1)),
                        ] + crate::json::jsonv_of_members(ms@.drop_first()));
                        assert(ms@[0].0@ == "tag"@ && ms@[1].0@ == "attrs"@ && ms@[2].0@
                            == "children"@);
                        assert(crate::json::jsonv_of(ms@[0].1) == tag_jsonv(elem_v_of(*e).tag));
                        assert(crate::json::jsonv_of(ms@[1].1) == attrs_jsonv(
                            elem_v_of(*e).attrs,
                        ));
                        assert(crate::json::jsonv_of(ms@[2].1) == JsonV::Arr(
                            nodes_jsonv(nodes_v_of(cs@)),
                        ));
                        assert(crate::json::jsonv_of_members(ms@) =~= elem_members(elem_v_of(*e)));
                    }
                    crate::json::JsonValue::Obj(ms)
                },
                None => {
                    proof {
                        assert(ms@ =~= seq![ms@[0], ms@[1]]);
                        assert(ms@.drop_first() =~= seq![ms@[1]]);
                        assert(ms@.drop_first().drop_first() =~= Seq::<
                            (Vec<char>, crate::json::JsonValue),
                        >::empty());
                        assert(crate::json::jsonv_of_members(
                            Seq::<(Vec<char>, crate::json::JsonValue)>::empty(),
                        ) == Seq::<(Seq<char>, JsonV)>::empty());
                        assert(crate::json::jsonv_of_members(ms@.drop_first()) == seq![
                            (ms@[1].0@, crate::json::jsonv_of(ms@[1].1)),
                        ] + Seq::<(Seq<char>, JsonV)>::empty());
                        assert(crate::json::jsonv_of_members(ms@) == seq![
                            (ms@[0].0@, crate::json::jsonv_of(ms@[0].1)),
                        ] + crate::json::jsonv_of_members(ms@.drop_first()));
                        assert(ms@[0].0@ == "tag"@ && ms@[1].0@ == "attrs"@);
                        assert(crate::json::jsonv_of(ms@[0].1) == tag_jsonv(elem_v_of(*e).tag));
                        assert(crate::json::jsonv_of(ms@[1].1) == attrs_jsonv(
                            elem_v_of(*e).attrs,
                        ));
                        assert(crate::json::jsonv_of_members(ms@) =~= elem_members(elem_v_of(*e)));
                    }
                    crate::json::JsonValue::Obj(ms)
                },
            }
        },
    }
}

/// How the node list held by a member relates to a plain lookup of that
/// member's key.
pub proof fn lemma_nodes_field_lookup(ms: Seq<(Seq<char>, JsonV)>, key: Seq<char>)
    ensures
        nodes_field(ms, key) == (match obj_lookup(ms, key) {
            None => Some(None::<Seq<NodeV>>),
            Some(JsonV::Null) => Some(None::<Seq<NodeV>>),
            Some(JsonV::Arr(cs)) => match nodes_of_jsonvs(cs) {
                Some(ns) => Some(Some(ns)),
                None => None,
            },
            Some(_) => None,
        }),
    decreases ms.len(),
{
    if ms.len() > 0 && ms[0].0 != key {
        lemma_nodes_field_lookup(ms.drop_first(), key);
    }
}

/// Decodes one node from its wire form.
pub fn node_from_json(j: &crate::json::JsonValue) -> (r: Option<Node>)
    ensures
        match r {
            Some(n) => node_of_jsonv(j@) == Some(n@),
            None => node_of_jsonv(j@) is None,
        },
    decreases j@, 0int,
{
    match j {
        crate::json::JsonValue::Str(t) => Some(Node::String(crate::chars::chars_to_string(t))),
        crate::json::JsonValue::Obj(ms) => {
            let tag: Option<NodeTag> = match crate::json::json_obj_get(ms, "tag") {
                None => None,
                Some(crate::json::JsonValue::Null) => None,
                Some(crate::json::JsonValue::Str(sv)) => match
                    super::node_element::tag_from_chars(sv) {
                    Some(t) => Some(t),
                    None => {
                        return None;
                    },
                },
                Some(_) => {
                    return None;
                },
            };
            let attrs: Option<NodeElementAttr> = match crate::json::json_obj_get(ms, "attrs") {
                None => None,
                Some(crate::json::JsonValue::Null) => None,
                Some(crate::json::JsonValue::Obj(ams)) => {
                    proof {
                        crate::json::lemma_jsonv_of_members_len(ams@);
                    }
                    if ams.len() == 1 {
                        proof {
                            crate::json::lemma_jsonv_of_members_index(ams@, 0);
                        }
                        match &ams[0].1 {
                            crate::json::JsonValue::Str(sv) => {
                                if crate::json::chars_eq_str(&ams[0].0, "id") {
                                    Some(NodeElementAttr::ID(crate::chars::chars_to_string(sv)))
                                } else if crate::json::chars_eq_str(&ams[0].0, "href") {
                                    Some(NodeElementAttr::Href(crate::chars::chars_to_string(sv)))
                                } else if crate::json::chars_eq_str(&ams[0].0, "src") {
                                    Some(NodeElementAttr::Src(crate::chars::chars_to_string(sv)))
                                } else {
                                    return None;
                                }
                            },
                            _ => {
                                return None;
                            },
                        }
                    } else {
                        return None;
                    }
                },
                Some(_) => {
                    return None;
                },
            };
            proof {
                lemma_nodes_field_lookup(crate::json::jsonv_of_members(ms@), "children"@);
            }
            let children: Option<Vec<Node>> = match crate::json::json_obj_get(ms, "children") {
                None => None,
                Some(crate::json::JsonValue::Null) => None,
                Some(chv) => match chv {
                    crate::json::JsonValue::Arr(cs) => {
                        proof {
                            lemma_nodes_field_lookup(crate::json::jsonv_of_members(ms@), "children"@);
                            lemma_obj_lookup_height(
                                crate::json::jsonv_of_members(ms@),
                                "children"@,
                            );
                            assert(decreases_to!(j@ => j@->Obj_0));
                            assert(chv@ == crate::json::JsonV::Arr(crate::json::jsonv_of_seq(cs@)));
                            assert(decreases_to!(chv@ => chv@->Arr_0));
                            assert(cs@.skip(0) =~= cs@);
                        }
                        match nodes_from_json_at(cs, 0) {
                            Some(v) => Some(v),
                            None => {
                                return None;
                            },
                        }
                    },
                    _ => {
                        return None;
                    },
                },
            };
            proof {
                lemma_nodes_field_lookup(crate::json::jsonv_of_members(ms@), "children"@);
            }
            Some(Node::NodeElement(NodeElement { tag, attrs, children }))
        },
        _ => None,
    }
}

/// Decodes the nodes at or after position `k` of a wire array.
pub fn nodes_from_json_at(cs: &Vec<crate::json::JsonValue>, k: usize) -> (r: Option<Vec<Node>>)
    requires
        k <= cs@.len(),
    ensures
        match r {
            Some(v) => nodes_of_jsonvs(crate::json::jsonv_of_seq(cs@.skip(k as int))) == Some(
                nodes_v_of(v@),
            ),
            None => nodes_of_jsonvs(crate::json::jsonv_of_seq(cs@.skip(k as int))) is None,
        },
    decreases crate::json::jsonv_of_seq(cs@.skip(k as int)), 1int,
{
    if k >= cs.len() {
        proof {
            assert(cs@.skip(k as int) =~= Seq::<crate::json::JsonValue>::empty());
        }
        Some(Vec::new())
    } else {
        proof {
            assert(cs@.skip(k as int)[0] == cs@[k as int]);
            assert(cs@.skip(k as int).drop_first() =~= cs@.skip(k as int + 1));
            crate::json::lemma_jsonv_of_seq_len(cs@.skip(k as int));
            assert(crate::json::jsonv_of_seq(cs@.skip(k as int)) == seq![
                crate::json::jsonv_of(cs@[k as int]),
            ] + crate::json::jsonv_of_seq(cs@.skip(k as int + 1)));
            assert((seq![crate::json::jsonv_of(cs@[k as int])] + crate::json::jsonv_of_seq(
                cs@.skip(k as int + 1),
            ))[0] == crate::json::jsonv_of(cs@[k as int]));
            assert((seq![crate::json::jsonv_of(cs@[k as int])] + crate::json::jsonv_of_seq(
                cs@.skip(k as int + 1),
            )).drop_first() =~= crate::json::jsonv_of_seq(cs@.skip(k as int + 1)));
            assert(decreases_to!(crate::json::jsonv_of_seq(cs@.skip(k as int)) =>
                crate::json::jsonv_of_seq(cs@.skip(k as int))[0]));
            assert(decreases_to!(crate::json::jsonv_of_seq(cs@.skip(k as int)) =>
                crate::json::jsonv_of_seq(cs@.skip(k as int)).subrange(
                1,
                crate::json::jsonv_of_seq(cs@.skip(k as int)).len() as int,
            )));
            assert(crate::json::jsonv_of_seq(cs@.skip(k as int)).subrange(
                1,
                crate::json::jsonv_of_seq(cs@.skip(k as int)).len() as int,
            ) =~= crate::json::jsonv_of_seq(cs@.skip(k as int)).drop_first());
        }
        let n = match node_from_json(&cs[k]) {
            Some(n) => n,
            None => {
                return None;
            },
        };
        match nodes_from_json_at(cs, k + 1) {
            Some(mut v) => {
                let ghost n0 = n@;
                let ghost v0 = v@;
                v.insert(0, n);
                proof {
                    assert(v@ =~= seq![v@[0]] + v0);
                    assert(v@[0]@ == n0);
                    assert(v@.drop_first() =~= v0);
                    assert(nodes_v_of(v@) == seq![node_v_of(v@[0])] + nodes_v_of(v@.drop_first()));
                }
                Some(v)
            },
            None => None,
        }
    }
}

/// Encodes a whole content tree to its wire form: a JSON array of nodes.
pub fn content_to_json(nodes: &Vec<Node>) -> (j: crate::json::JsonValue)
    ensures
        j@ == content_jsonv(nodes_v_of(nodes@)),
{
    let n = nodes.len();
    let mut js: Vec<crate::json::JsonValue> = Vec::new();
    let mut k: usize = 0;
    while k < n
        invariant
            n == nodes@.len(),
            k <= n,
            crate::json::jsonv_of_seq(js@) == nodes_jsonv(nodes_v_of(nodes@.take(k as int))),
        decreases n - k,
    {
        let jv = node_to_json(&nodes[k]);
        let ghost js0 = js@;
        js.push(jv);
        proof {
            assert(js@ =~= js0.push(js@[js@.len() - 1]));
            crate::json::lemma_jsonv_of_seq_snoc(js0, js@[js@.len() - 1]);
            assert(nodes@.take(k + 1 as int) =~= nodes@.take(k as int).push(nodes@[k as int]));
            lemma_nodes_v_of_snoc(nodes@.take(k as int), nodes@[k as int]);
            lemma_nodes_jsonv_snoc(
                nodes_v_of(nodes@.take(k as int)),
                node_v_of(nodes@[k as int]),
            );
        }
        k = k + 1;
    }
    proof {
        assert(nodes@.take(n as int) =~= nodes@);
    }
    crate::json::JsonValue::Arr(js)
}

/// Encodes a whole content tree to its string form.
pub fn content_to_string(nodes: &Vec<Node>) -> (s: String)
    ensures
        s@ == content_string(nodes_v_of(nodes@)),
{
    let j = content_to_json(nodes);
    let cs = crate::json::json_to_chars(&j);
    crate::chars::chars_to_string(&cs)
}

/// Decodes a whole content tree from its wire form.
pub fn content_from_json(j: &crate::json::JsonValue) -> (r: Option<Vec<Node>>)
    ensures
        match r {
            Some(v) => content_of_jsonv(j@) == Some(nodes_v_of(v@)),
            None => content_of_jsonv(j@) is None,
        },
{
    match j {
        crate::json::JsonValue::Arr(cs) => {
            proof {
                assert(cs@.skip(0) =~= cs@);
            }
            nodes_from_json_at(cs, 0)
        },
        _ => None,
    }
}

} // verus!
