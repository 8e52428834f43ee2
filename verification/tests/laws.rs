//! Behaviour the library promises: round trips, envelope unwrapping, the
//! builder defaults, and the unified error type.

use telegraph_api_rs::build_content;
use telegraph_api_rs::chars::chars_to_string;
use telegraph_api_rs::chars::str_to_chars;
use telegraph_api_rs::types::media::upload_from_response;
use telegraph_api_rs::types::node::content_to_string;
use telegraph_api_rs::types::Account;
use telegraph_api_rs::types::Node;
use telegraph_api_rs::types::NodeElement;
use telegraph_api_rs::types::NodeElementAttr;
use telegraph_api_rs::types::NodeTag;
use telegraph_api_rs::types::Page;
use telegraph_api_rs::types::PageViews;
use telegraph_api_rs::types::TelegraphResult;
use telegraph_api_rs::types::unwrap_result;
use telegraph_api_rs::TelegraphError;

#[test]
fn content_round_trip_simple() {
    let content = "[{\"tag\":\"p\",\"children\":[\"hi\"]}]";
    let nodes = build_content(content).unwrap();
    assert_eq!(nodes.len(), 1);
    let text = content_to_string(&nodes);
    assert_eq!(text, "[{\"tag\":\"p\",\"attrs\":null,\"children\":[\"hi\"]}]");
    let again = build_content(&text).unwrap();
    assert_eq!(again, nodes);
}

#[test]
fn content_round_trip_nested() {
    let original = vec![
        Node::String("plain \"text\" with \\ specials".to_string()),
        Node::NodeElement(NodeElement {
            tag: Some(NodeTag::A),
            attrs: Some(NodeElementAttr::Href("https://example.com/?q=1&r=2".to_string())),
            children: Some(vec![
                Node::String("link text".to_string()),
                Node::NodeElement(NodeElement {
                    tag: Some(NodeTag::Ul),
                    attrs: None,
                    children: Some(vec![]),
                }),
            ]),
        }),
        Node::NodeElement(NodeElement {
            tag: Some(NodeTag::Br),
            attrs: None,
            children: None,
        }),
    ];
    let text = content_to_string(&original);
    let decoded = build_content(&text).unwrap();
    assert_eq!(decoded, original);
}

#[test]
fn views_envelope_decode() {
    let body = "{\"ok\":true,\"result\":{\"views\":20}}";
    let views = PageViews::from_response(body).unwrap();
    assert_eq!(views.views, 20);
}

#[test]
fn api_error_envelope_decode() {
    let body = "{\"ok\":false,\"error\":\"SHORT_NAME_REQUIRED\"}";
    let res = Account::from_response(body);
    match res {
        Err(TelegraphError::ApiError(msg)) => assert_eq!(msg, "SHORT_NAME_REQUIRED"),
        _ => panic!("expected an api error"),
    }
}

#[test]
fn ok_without_result_is_parse_error() {
    let body = "{\"ok\":true}";
    let res = Page::from_response(body);
    assert!(matches!(res, Err(TelegraphError::ParseError(_))));
}

#[test]
fn error_without_message_is_parse_error() {
    let body = "{\"ok\":false}";
    let res = Page::from_response(body);
    assert!(matches!(res, Err(TelegraphError::ParseError(_))));
}

#[test]
fn invalid_json_is_parse_error() {
    let res = Account::from_response("not json at all");
    assert!(matches!(res, Err(TelegraphError::ParseError(_))));
}

#[test]
fn unknown_tag_is_rejected() {
    let res = build_content("[{\"tag\":\"marquee\"}]");
    assert!(matches!(res, Err(TelegraphError::ParseError(_))));
}

#[test]
fn malformed_content_is_rejected() {
    let res = build_content("[{\"tag\":");
    assert!(matches!(res, Err(TelegraphError::ParseError(_))));
}

#[test]
fn out_of_range_views_is_parse_error() {
    let body = "{\"ok\":true,\"result\":{\"views\":99999999999}}";
    let res = PageViews::from_response(body);
    assert!(matches!(res, Err(TelegraphError::ParseError(_))));
}

#[test]
fn unwrap_result_four_ways() {
    let ok: TelegraphResult<PageViews> = TelegraphResult {
        ok: true,
        result: Some(PageViews { views: 7 }),
        error: None,
    };
    assert_eq!(unwrap_result(ok).unwrap().views, 7);

    let missing: TelegraphResult<PageViews> = TelegraphResult {
        ok: true,
        result: None,
        error: None,
    };
    assert!(matches!(unwrap_result(missing), Err(TelegraphError::ParseError(_))));

    let failed: TelegraphResult<PageViews> = TelegraphResult {
        ok: false,
        result: None,
        error: Some(TelegraphError::ApiError("PAGE_NOT_FOUND".to_string())),
    };
    match unwrap_result(failed) {
        Err(TelegraphError::ApiError(msg)) => assert_eq!(msg, "PAGE_NOT_FOUND"),
        _ => panic!("expected the server's error back"),
    }

    let silent: TelegraphResult<PageViews> = TelegraphResult {
        ok: false,
        result: None,
        error: None,
    };
    assert!(matches!(unwrap_result(silent), Err(TelegraphError::ParseError(_))));
}

#[test]
fn upload_response_decodes_records() {
    let body = "[{\"src\":\"/file/abc.jpg\"},{\"src\":\"/file/def.png\"}]";
    let media = upload_from_response(body).unwrap();
    assert_eq!(media.len(), 2);
    assert_eq!(media[0].src, "/file/abc.jpg");
    assert_eq!(media[1].src, "/file/def.png");
}

#[test]
fn upload_response_carries_server_error() {
    let body = "{\"error\":\"FILE_TOO_BIG\"}";
    let res = upload_from_response(body);
    match res {
        Err(TelegraphError::ApiError(msg)) => assert_eq!(msg, "FILE_TOO_BIG"),
        _ => panic!("expected an api error"),
    }
}

#[test]
fn error_messages_name_their_layer() {
    assert_eq!(
        TelegraphError::ApiError("X".to_string()).message(),
        "Api error: X"
    );
    assert_eq!(
        TelegraphError::RequestError("Y".to_string()).message(),
        "Request error: Y"
    );
    assert_eq!(
        TelegraphError::ParseError("Z".to_string()).message(),
        "Parse error: Z"
    );
    assert_eq!(
        TelegraphError::IoError("W".to_string()).message(),
        "IO error: W"
    );
}

#[test]
fn string_chars_round_trip() {
    let text = "mixed ascii and \u{00e9}\u{4e16}\u{1f600} text";
    let cs = str_to_chars(text);
    let back = chars_to_string(&cs);
    assert_eq!(back, text);
}

#[test]
fn account_envelope_success() {
    let body = "{\"ok\":true,\"result\":{\"short_name\":\"sandbox\",\"author_name\":\"Anonymous\",\"access_token\":\"qwerty1234\"}}";
    let account = Account::from_response(body).unwrap();
    assert_eq!(account.short_name.unwrap(), "sandbox");
    assert_eq!(account.author_name.unwrap(), "Anonymous");
    assert_eq!(account.access_token.unwrap(), "qwerty1234");
    assert_eq!(account.page_count, None);
}

#[test]
fn page_with_content_decodes() {
    let body = "{\"ok\":true,\"result\":{\"path\":\"p-1\",\"url\":\"https://telegra.ph/p-1\",\"title\":\"T\",\"description\":\"\",\"views\":3,\"content\":[\"hello\",{\"tag\":\"br\"}]}}";
    let page = Page::from_response(body).unwrap();
    let content = page.content.unwrap();
    assert_eq!(content.len(), 2);
    assert!(matches!(content[0], Node::String(ref s) if s == "hello"));
    match &content[1] {
        Node::NodeElement(el) => assert_eq!(el.tag, Some(NodeTag::Br)),
        _ => panic!("expected an element"),
    }
}

#[test]
fn empty_content_round_trips() {
    let nodes = build_content("[]").unwrap();
    assert_eq!(nodes.len(), 0);
    assert_eq!(content_to_string(&nodes), "[]");
}

#[test]
fn string_escapes_decode() {
    let nodes = build_content("[\"a\\n\\t\\\\ \\\"q\\\" \\/ b\"]").unwrap();
    match &nodes[0] {
        Node::String(s) => assert_eq!(s, "a\n\t\\ \"q\" / b"),
        _ => panic!("expected a text node"),
    }
}

#[test]
fn negative_and_zero_numbers_decode() {
    let body = "{\"ok\":true,\"result\":{\"short_name\":\"s\",\"page_count\":-5}}";
    let account = Account::from_response(body).unwrap();
    assert_eq!(account.page_count, Some(-5));

    let body = "{\"ok\":true,\"result\":{\"views\":0}}";
    let views = PageViews::from_response(body).unwrap();
    assert_eq!(views.views, 0);
}

#[test]
fn whitespace_heavy_body_decodes() {
    let body = "  {\n\t\"ok\" :  true ,\r\n \"result\" : { \"views\" : 42 } }  ";
    let views = PageViews::from_response(body).unwrap();
    assert_eq!(views.views, 42);
}
