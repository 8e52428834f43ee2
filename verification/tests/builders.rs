//! The typestate builders: endpoints, defaults, and the form bodies they
//! produce once every required field is filled.

use telegraph_api_rs::types::AccountField;
use telegraph_api_rs::types::Node;
use telegraph_api_rs::Telegraph;

#[test]
fn create_account_request_body() {
    let telegraph = Telegraph::new();
    let req = telegraph
        .create_account()
        .short_name("Short name")
        .author_name("Author name")
        .into_request();
    assert_eq!(req.url, "https://api.telegra.ph/createAccount");
    assert_eq!(req.body, "short_name=Short+name&author_name=Author+name");
}

#[test]
fn create_account_setters_any_order() {
    let telegraph = Telegraph::new();
    let req = telegraph
        .create_account()
        .author_url("https://t.me/x")
        .short_name("a/b")
        .into_request();
    assert_eq!(
        req.body,
        "short_name=a%2Fb&author_url=https%3A%2F%2Ft.me%2Fx"
    );
}

#[test]
fn get_account_info_default_fields() {
    let telegraph = Telegraph::new();
    let req = telegraph.get_account_info().access_token("t").into_request();
    assert_eq!(req.url, "https://api.telegra.ph/getAccountInfo");
    assert_eq!(
        req.body,
        "access_token=t&fields=%5B%22short_name%22%2C%22author_name%22%2C%22author_url%22%5D"
    );
}

#[test]
fn get_account_info_explicit_fields() {
    let telegraph = Telegraph::new();
    let req = telegraph
        .get_account_info()
        .access_token("t")
        .fields(vec![AccountField::ShortName, AccountField::AuthorUrl])
        .into_request();
    assert_eq!(
        req.body,
        "access_token=t&fields=%5B%22short_name%22%2C%22author_url%22%5D"
    );
}

#[test]
fn get_page_list_default_window() {
    let telegraph = Telegraph::new();
    let req = telegraph.get_page_list().access_token("t").into_request();
    assert_eq!(req.url, "https://api.telegra.ph/getPageList");
    assert_eq!(req.body, "access_token=t&offset=0&limit=50");
}

#[test]
fn get_page_list_explicit_window() {
    let telegraph = Telegraph::new();
    let req = telegraph
        .get_page_list()
        .access_token("t")
        .offset(10)
        .limit(2)
        .into_request();
    assert_eq!(req.body, "access_token=t&offset=10&limit=2");
}

#[test]
fn get_views_with_date_parts() {
    let telegraph = Telegraph::new();
    let req = telegraph
        .get_views()
        .path("Sample-Page-12-15")
        .year(2022)
        .month(10)
        .day(15)
        .into_request();
    assert_eq!(req.url, "https://api.telegra.ph/getViews");
    assert_eq!(
        req.body,
        "path=Sample-Page-12-15&year=2022&month=10&day=15"
    );
}

#[test]
fn get_page_request_body() {
    let telegraph = Telegraph::new();
    let req = telegraph
        .get_page()
        .path("Sample-Page-12-15")
        .return_content(true)
        .into_request();
    assert_eq!(req.url, "https://api.telegra.ph/getPage");
    assert_eq!(req.body, "path=Sample-Page-12-15&return_content=true");
}

#[test]
fn revoke_access_token_request_body() {
    let telegraph = Telegraph::new();
    let req = telegraph.revoke_access_token().access_token("abc").into_request();
    assert_eq!(req.url, "https://api.telegra.ph/revokeAccessToken");
    assert_eq!(req.body, "access_token=abc");
}

#[test]
fn edit_account_info_request_body() {
    let telegraph = Telegraph::new();
    let req = telegraph
        .edit_account_info()
        .access_token("tok")
        .author_name("Author name 2")
        .into_request();
    assert_eq!(req.url, "https://api.telegra.ph/editAccountInfo");
    assert_eq!(req.body, "access_token=tok&author_name=Author+name+2");
}

#[test]
fn create_page_request_body() {
    let telegraph = Telegraph::new();
    let content = telegraph_api_rs::build_content("[{\"tag\":\"p\",\"children\":[\"hi\"]}]")
        .unwrap();
    let req = telegraph
        .create_page()
        .access_token("tok")
        .title("Hello world")
        .content(content)
        .return_content(true)
        .into_request();
    assert_eq!(req.url, "https://api.telegra.ph/createPage");
    assert_eq!(
        req.body,
        "access_token=tok&title=Hello+world&content=%5B%7B%22tag%22%3A%22p%22%2C%22attrs%22%3Anull%2C%22children%22%3A%5B%22hi%22%5D%7D%5D&return_content=true"
    );
}

#[test]
fn edit_page_request_body() {
    let telegraph = Telegraph::new();
    let content: Vec<Node> = vec![Node::String("x y".to_string())];
    let req = telegraph
        .edit_page()
        .access_token("tok")
        .title("T")
        .path("P-1")
        .content(content)
        .into_request();
    assert_eq!(req.url, "https://api.telegra.ph/editPage");
    assert_eq!(
        req.body,
        "access_token=tok&path=P-1&title=T&content=%5B%22x+y%22%5D&return_content=false"
    );
}

#[test]
fn mime_guess_by_extension() {
    assert_eq!(Telegraph::get_mime("photo.png"), "image/png");
    assert_eq!(Telegraph::get_mime("clip.gif"), "image/gif");
    assert_eq!(Telegraph::get_mime("mystery.unknownext"), "image/jpeg");
}
