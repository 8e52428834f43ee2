//! Decoding and encoding of the wire types.

use telegraph_api_rs::chars::str_to_chars;
use telegraph_api_rs::json::parse_json_chars;
use telegraph_api_rs::types::node::content_to_string;
use telegraph_api_rs::types::node::node_from_json;
use telegraph_api_rs::types::Account;
use telegraph_api_rs::types::AccountField;
use telegraph_api_rs::types::Node;
use telegraph_api_rs::types::NodeElement;
use telegraph_api_rs::types::NodeElementAttr;
use telegraph_api_rs::types::NodeTag;
use telegraph_api_rs::types::Page;
use telegraph_api_rs::types::PageList;
use telegraph_api_rs::types::PageViews;
use telegraph_api_rs::build_content;
use telegraph_api_rs::requests::ApiFieldSerializer;

fn parse(text: &str) -> telegraph_api_rs::json::JsonValue {
    let cs = str_to_chars(text);
    parse_json_chars(&cs).unwrap()
}

#[test]
fn account_deserialize() {
    let acc_str = r#"
        {
            "short_name": "Short name",
            "author_name": "Author name",
            "author_url": "",
            "access_token": "qwerty1234",
            "page_count": 10
        }"#;
    let account: Account = Account::from_json(&parse(acc_str)).unwrap_or_default();
    assert_eq!(account.short_name.unwrap_or_default(), "Short name");
    assert_eq!(account.author_name.unwrap_or_default(), "Author name");
    assert_eq!(account.author_url.unwrap_or_default(), "");
    assert_eq!(account.access_token.unwrap_or_default(), "qwerty1234");
    assert_eq!(account.auth_url, None);
    assert_eq!(account.page_count.unwrap_or_default(), 10);
}

#[test]
fn serialize_account_fields() {
    let query = "[\"short_name\"]";
    let fields = vec![AccountField::ShortName];
    let json = ApiFieldSerializer::serialize_fields(&fields);
    assert_eq!(query, json);
}

#[test]
fn node_text_deserialize() {
    let json = "[\"It's text node\"]";
    let nodes: Vec<Node> = build_content(json).unwrap_or_default();
    let el = if let Some(Node::String(el)) = nodes.into_iter().nth(0) {
        el
    } else {
        String::new()
    };
    assert_eq!(el, "It's text node")
}

#[test]
fn node_element_deserialize() {
    let json = r#"
    {
        "tag": "p"
    }"#;
    let node: Node = node_from_json(&parse(json)).unwrap();
    let el = if let Node::NodeElement(el) = node {
        el
    } else {
        NodeElement::default()
    };
    assert_eq!(
        el.tag
            .map(|node_tag| match node_tag {
                NodeTag::P => "p".to_string(),
                _ => "".to_string(),
            })
            .unwrap(),
        "p"
    );
}

#[test]
fn node_elements_deserialize() {
    let node_el_str = r#"
    {
        "tag": "p",
        "children": ["Hello world!"]
    }"#;
    let node_element: NodeElement = match node_from_json(&parse(node_el_str)) {
        Some(Node::NodeElement(el)) => el,
        _ => NodeElement::default(),
    };
    let tag = node_element.tag.map(|tag| match tag {
        NodeTag::P => "p".to_string(),
        _ => "".to_string(),
    });

    assert_eq!(tag.unwrap(), "p");

    let node = node_element.children.unwrap_or_default().into_iter().nth(0);
    let el = if let Some(Node::String(el)) = node {
        el
    } else {
        String::new()
    };

    assert_eq!(el, "Hello world!");
}

#[test]
fn node_elements_with_attr_deserialize() {
    let node_el_str = r#"
    {
        "tag": "p",
        "attrs": {"href": "link1"}
    }"#;
    let node_element: NodeElement = match node_from_json(&parse(node_el_str)) {
        Some(Node::NodeElement(el)) => el,
        _ => NodeElement::default(),
    };
    let node_attr_element = if let Some(NodeElementAttr::Href(el)) = node_element.attrs {
        el
    } else {
        "".into()
    };

    assert_eq!(node_attr_element, "link1");
}

#[test]
fn node_element_serialize() {
    let node_element = vec![Node::NodeElement(NodeElement {
        tag: Some(NodeTag::P),
        children: Some(vec![Node::String("test".to_string())]),
        ..NodeElement::default()
    })];
    let res = content_to_string(&node_element);
    assert_eq!(
        res,
        "[{\"tag\":\"p\",\"attrs\":null,\"children\":[\"test\"]}]".to_string()
    );
}

#[test]
fn page_deserialize() {
    let page_str = r#"
    {
        "path": "path test",
        "url": "url test",
        "title": "title test",
        "description": "description test",
        "views": 10,
        "can_edit": true
    }"#;
    let page: Page = Page::from_json(&parse(page_str)).unwrap_or_default();
    assert_eq!(page.path, "path test");
    assert_eq!(page.url, "url test");
    assert_eq!(page.title, "title test");
    assert_eq!(page.description, "description test");
    assert_eq!(page.views, 10);
    assert!(page.can_edit.unwrap_or(false));
}

#[test]
fn page_list_deserialize() {
    let page_list_str = r#"
    {
        "total_count": 1,
        "pages": [{
            "path": "path test",
            "url": "url test",
            "title": "title test",
            "description": "description test",
            "views": 10,
            "can_edit": true
        }]
    }"#;
    let page: PageList = PageList::from_json(&parse(page_list_str)).unwrap_or_default();
    assert_eq!(page.total_count, 1);
    assert_eq!(page.pages.len(), 1);
    assert_eq!(page.pages[0].path, "path test");
    assert_eq!(page.pages[0].url, "url test");
}

#[test]
fn page_views_deserialize() {
    let page_views_str = r#"
        {
            "views": 20
        }
    "#;
    let page_views: PageViews = PageViews::from_json(&parse(page_views_str)).unwrap_or_default();
    assert_eq!(page_views.views, 20);
}
