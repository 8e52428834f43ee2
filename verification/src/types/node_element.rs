//! DOM element nodes: the tag vocabulary, the attribute vocabulary, and the
//! element structure itself.

use super::node::Node;
use super::node::NodeV;
use vstd::prelude::*;

verus! {

broadcast use vstd::string::group_string_axioms;

/// The tags a page body may use; an unknown tag fails to parse.
#[derive(Clone, Copy, Debug, PartialEq, Eq, Structural)]
#[allow(missing_docs)]
pub enum NodeTag {
    A,
    Aside,
    B,
    Blockquote,
    Br,
    Code,
    Em,
    Figcaption,
    Figure,
    H3,
    H4,
    Hr,
    I,
    Iframe,
    Img,
    Li,
    Ol,
    P,
    Pre,
    S,
    Strong,
    U,
    Ul,
    Video,
}

/// The wire name of a tag.
pub open spec fn tag_name(t: NodeTag) -> Seq<char> {
    match t {
        NodeTag::A => "a"@,
        NodeTag::Aside => "aside"@,
        NodeTag::B => "b"@,
        NodeTag::Blockquote => "blockquote"@,
        NodeTag::Br => "br"@,
        NodeTag::Code => "code"@,
        NodeTag::Em => "em"@,
        NodeTag::Figcaption => "figcaption"@,
        NodeTag::Figure => "figure"@,
        NodeTag::H3 => "h3"@,
        NodeTag::H4 => "h4"@,
        NodeTag::Hr => "hr"@,
        NodeTag::I => "i"@,
        NodeTag::Iframe => "iframe"@,
        NodeTag::Img => "img"@,
        NodeTag::Li => "li"@,
        NodeTag::Ol => "ol"@,
        NodeTag::P => "p"@,
        NodeTag::Pre => "pre"@,
        NodeTag::S => "s"@,
        NodeTag::Strong => "strong"@,
        NodeTag::U => "u"@,
        NodeTag::Ul => "ul"@,
        NodeTag::Video => "video"@,
    }
}

/// The tag with the given wire name, if the name is in the vocabulary.
pub open spec fn tag_of_name(s: Seq<char>) -> Option<NodeTag> {
    if s == "a"@ {
        Some(NodeTag::A)
    } else if s == "aside"@ {
        Some(NodeTag::Aside)
    } else if s == "b"@ {
        Some(NodeTag::B)
    } else if s == "blockquote"@ {
        Some(NodeTag::Blockquote)
    } else if s == "br"@ {
        Some(NodeTag::Br)
    } else if s == "code"@ {
        Some(NodeTag::Code)
    } else if s == "em"@ {
        Some(NodeTag::Em)
    } else if s == "figcaption"@ {
        Some(NodeTag::Figcaption)
    } else if s == "figure"@ {
        Some(NodeTag::Figure)
    } else if s == "h3"@ {
        Some(NodeTag::H3)
    } else if s == "h4"@ {
        Some(NodeTag::H4)
    } else if s == "hr"@ {
        Some(NodeTag::Hr)
    } else if s == "i"@ {
        Some(NodeTag::I)
    } else if s == "iframe"@ {
        Some(NodeTag::Iframe)
    } else if s == "img"@ {
        Some(NodeTag::Img)
    } else if s == "li"@ {
        Some(NodeTag::Li)
    } else if s == "ol"@ {
        Some(NodeTag::Ol)
    } else if s == "p"@ {
        Some(NodeTag::P)
    } else if s == "pre"@ {
        Some(NodeTag::Pre)
    } else if s == "s"@ {
        Some(NodeTag::S)
    } else if s == "strong"@ {
        Some(NodeTag::Strong)
    } else if s == "u"@ {
        Some(NodeTag::U)
    } else if s == "ul"@ {
        Some(NodeTag::Ul)
    } else if s == "video"@ {
        Some(NodeTag::Video)
    } else {
        None
    }
}

/// The wire name of a tag, as characters.
pub fn tag_name_chars(t: &NodeTag) -> (v: Vec<char>)
    ensures
        v@ == tag_name(*t),
{
    match t {
        NodeTag::A => crate::chars::str_to_chars("a"),
        NodeTag::Aside => crate::chars::str_to_chars("aside"),
        NodeTag::B => crate::chars::str_to_chars("b"),
        NodeTag::Blockquote => crate::chars::str_to_chars("blockquote"),
        NodeTag::Br => crate::chars::str_to_chars("br"),
        NodeTag::Code => crate::chars::str_to_chars("code"),
        NodeTag::Em => crate::chars::str_to_chars("em"),
        NodeTag::Figcaption => crate::chars::str_to_chars("figcaption"),
        NodeTag::Figure => crate::chars::str_to_chars("figure"),
        NodeTag::H3 => crate::chars::str_to_chars("h3"),
        NodeTag::H4 => crate::chars::str_to_chars("h4"),
        NodeTag::Hr => crate::chars::str_to_chars("hr"),
        NodeTag::I => crate::chars::str_to_chars("i"),
        NodeTag::Iframe => crate::chars::str_to_chars("iframe"),
        NodeTag::Img => crate::chars::str_to_chars("img"),
        NodeTag::Li => crate::chars::str_to_chars("li"),
        NodeTag::Ol => crate::chars::str_to_chars("ol"),
        NodeTag::P => crate::chars::str_to_chars("p"),
        NodeTag::Pre => crate::chars::str_to_chars("pre"),
        NodeTag::S => crate::chars::str_to_chars("s"),
        NodeTag::Strong => crate::chars::str_to_chars("strong"),
        NodeTag::U => crate::chars::str_to_chars("u"),
        NodeTag::Ul => crate::chars::str_to_chars("ul"),
        NodeTag::Video => crate::chars::str_to_chars("video"),
    }
}

/// The tag with the given wire name, if the name is in the vocabulary.
pub fn tag_from_chars(v: &Vec<char>) -> (r: Option<NodeTag>)
    ensures
        r == tag_of_name(v@),
{
    if crate::json::chars_eq_str(v, "a") {
        Some(NodeTag::A)
    } else if crate::json::chars_eq_str(v, "aside") {
        Some(NodeTag::Aside)
    } else if crate::json::chars_eq_str(v, "b") {
        Some(NodeTag::B)
    } else if crate::json::chars_eq_str(v, "blockquote") {
        Some(NodeTag::Blockquote)
    } else if crate::json::chars_eq_str(v, "br") {
        Some(NodeTag::Br)
    } else if crate::json::chars_eq_str(v, "code") {
        Some(NodeTag::Code)
    } else if crate::json::chars_eq_str(v, "em") {
        Some(NodeTag::Em)
    } else if crate::json::chars_eq_str(v, "figcaption") {
        Some(NodeTag::Figcaption)
    } else if crate::json::chars_eq_str(v, "figure") {
        Some(NodeTag::Figure)
    } else if crate::json::chars_eq_str(v, "h3") {
        Some(NodeTag::H3)
    } else if crate::json::chars_eq_str(v, "h4") {
        Some(NodeTag::H4)
    } else if crate::json::chars_eq_str(v, "hr") {
        Some(NodeTag::Hr)
    } else if crate::json::chars_eq_str(v, "i") {
        Some(NodeTag::I)
    } else if crate::json::chars_eq_str(v, "iframe") {
        Some(NodeTag::Iframe)
    } else if crate::json::chars_eq_str(v, "img") {
        Some(NodeTag::Img)
    } else if crate::json::chars_eq_str(v, "li") {
        Some(NodeTag::Li)
    } else if crate::json::chars_eq_str(v, "ol") {
        Some(NodeTag::Ol)
    } else if crate::json::chars_eq_str(v, "p") {
        Some(NodeTag::P)
    } else if crate::json::chars_eq_str(v, "pre") {
        Some(NodeTag::Pre)
    } else if crate::json::chars_eq_str(v, "s") {
        Some(NodeTag::S)
    } else if crate::json::chars_eq_str(v, "strong") {
        Some(NodeTag::Strong)
    } else if crate::json::chars_eq_str(v, "u") {
        Some(NodeTag::U)
    } else if crate::json::chars_eq_str(v, "ul") {
        Some(NodeTag::Ul)
    } else if crate::json::chars_eq_str(v, "video") {
        Some(NodeTag::Video)
    } else {
        None
    }
}

/// A tag's wire name maps back to that tag.
pub proof fn lemma_tag_name_inverse(t: NodeTag)
    ensures
        tag_of_name(tag_name(t)) == Some(t),
{
    reveal_strlit("a");
    reveal_strlit("aside");
    reveal_strlit("b");
    reveal_strlit("blockquote");
    reveal_strlit("br");
    reveal_strlit("code");
    reveal_strlit("em");
    reveal_strlit("figcaption");
    reveal_strlit("figure");
    reveal_strlit("h3");
    reveal_strlit("h4");
    reveal_strlit("hr");
    reveal_strlit("i");
    reveal_strlit("iframe");
    reveal_strlit("img");
    reveal_strlit("li");
    reveal_strlit("ol");
    reveal_strlit("p");
    reveal_strlit("pre");
    reveal_strlit("s");
    reveal_strlit("strong");
    reveal_strlit("u");
    reveal_strlit("ul");
    reveal_strlit("video");
    assert("a"@.len() == 1 && "a"@[0] == 'a');
    assert("aside"@.len() == 5 && "aside"@[0] == 'a');
    assert("b"@.len() == 1 && "b"@[0] == 'b');
    assert("blockquote"@.len() == 10 && "blockquote"@[0] == 'b');
    assert("br"@.len() == 2 && "br"@[0] == 'b');
    assert("code"@.len() == 4 && "code"@[0] == 'c');
    assert("em"@.len() == 2 && "em"@[0] == 'e');
    assert("figcaption"@.len() == 10 && "figcaption"@[0] == 'f');
    assert("figure"@.len() == 6 && "figure"@[0] == 'f');
    assert("h3"@.len() == 2 && "h3"@[0] == 'h');
    assert("h4"@.len() == 2 && "h4"@[0] == 'h');
    assert("hr"@.len() == 2 && "hr"@[0] == 'h');
    assert("i"@.len() == 1 && "i"@[0] == 'i');
    assert("iframe"@.len() == 6 && "iframe"@[0] == 'i');
    assert("img"@.len() == 3 && "img"@[0] == 'i');
    assert("li"@.len() == 2 && "li"@[0] == 'l');
    assert("ol"@.len() == 2 && "ol"@[0] == 'o');
    assert("p"@.len() == 1 && "p"@[0] == 'p');
    assert("pre"@.len() == 3 && "pre"@[0] == 'p');
    assert("s"@.len() == 1 && "s"@[0] == 's');
    assert("strong"@.len() == 6 && "strong"@[0] == 's');
    assert("u"@.len() == 1 && "u"@[0] == 'u');
    assert("ul"@.len() == 2 && "ul"@[0] == 'u');
    assert("video"@.len() == 5 && "video"@[0] == 'v');
    assert("h3"@[1] == '3');
    assert("h4"@[1] == '4');
    assert("hr"@[1] == 'r');
}

/// Mathematical model of a [`NodeElementAttr`].
#[allow(missing_docs)]
pub enum AttrV {
    Id(Seq<char>),
    Href(Seq<char>),
    Src(Seq<char>),
}

/// The attributes an element may carry: one known key with its value.
#[derive(Debug, PartialEq, Eq)]
#[allow(missing_docs)]
pub enum NodeElementAttr {
    ID(String),
    Href(String),
    Src(String),
}

impl View for NodeElementAttr {
    type V = AttrV;

    open spec fn view(&self) -> AttrV {
        match self {
            NodeElementAttr::ID(s) => AttrV::Id(s@),
            NodeElementAttr::Href(s) => AttrV::Href(s@),
            NodeElementAttr::Src(s) => AttrV::Src(s@),
        }
    }
}

/// The wire key of an attribute.
pub open spec fn attr_key(a: AttrV) -> Seq<char> {
    match a {
        AttrV::Id(_) => "id"@,
        AttrV::Href(_) => "href"@,
        AttrV::Src(_) => "src"@,
    }
}

/// The value of an attribute.
pub open spec fn attr_value(a: AttrV) -> Seq<char> {
    match a {
        AttrV::Id(s) => s,
        AttrV::Href(s) => s,
        AttrV::Src(s) => s,
    }
}

/// The attribute a one-member object stands for, if its key is known and its
/// value a string.
pub open spec fn attr_of_member(key: Seq<char>, value: crate::json::JsonV) -> Option<AttrV> {
    match value {
        crate::json::JsonV::Str(s) => if key == "id"@ {
            Some(AttrV::Id(s))
        } else if key == "href"@ {
            Some(AttrV::Href(s))
        } else if key == "src"@ {
            Some(AttrV::Src(s))
        } else {
            None
        },
        _ => None,
    }
}

/// An attribute's wire form maps back to that attribute.
pub proof fn lemma_attr_inverse(a: AttrV)
    ensures
        attr_of_member(attr_key(a), crate::json::JsonV::Str(attr_value(a))) == Some(a),
{
    reveal_strlit("id");
    reveal_strlit("href");
    reveal_strlit("src");
    assert("id"@.len() == 2 && "href"@.len() == 4 && "src"@.len() == 3);
}

/// Mathematical model of a [`NodeElement`].
pub struct NodeElementV {
    /// The element's tag.
    pub tag: Option<NodeTag>,
    /// The element's attribute.
    pub attrs: Option<AttrV>,
    /// The element's children.
    pub children: Option<Seq<NodeV>>,
}

/// A DOM element node: a tag from the vocabulary, an optional attribute, and
/// optional child nodes.
#[derive(Debug, Default, PartialEq)]
pub struct NodeElement {
    /// Name of the DOM element.
    pub tag: Option<NodeTag>,
    /// Attribute of the DOM element.
    pub attrs: Option<NodeElementAttr>,
    /// List of child nodes of the DOM element.
    pub children: Option<Vec<Node>>,
}

impl super::TelegraphType for NodeElement {

}

} // verus!
