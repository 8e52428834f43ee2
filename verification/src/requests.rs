//! The request builders, one per API operation.
//!
//! Each builder is a typestate machine: a marker type per required field
//! records whether it has been supplied, and the request can only be built —
//! and so only be sent — from the state where every required field is
//! filled. An unfilled builder has no path to the wire.

pub mod create_account;
pub mod create_page;
pub mod edit_account_info;
pub mod edit_page;
pub mod get_account_info;
pub mod get_page;
pub mod get_page_list;
pub mod get_views;
pub mod revoke_access_token;

pub use create_account::CreateAccount;
pub use create_account::NoShortName;
pub use create_account::ShortName;
pub use create_page::CreatePage;
pub use edit_account_info::EditAccountInfo;
pub use edit_page::EditPage;
pub use get_account_info::GetAccountInfo;
pub use get_page::GetPage;
pub use get_page_list::GetPageList;
pub use get_views::GetViews;
pub use revoke_access_token::RevokeAccessToken;

use crate::chars::chars_to_string;
use crate::form::append_str;
use crate::form::append_urlenc;
use crate::form::urlenc;
use crate::json::print_jsonv;
use crate::types::account::fields_jsonv;
use crate::types::account::field_names_jsonv;
use crate::types::account::account_field_chars;
use crate::types::AccountField;
use crate::types::Node;
use vstd::prelude::*;

verus! {

broadcast use vstd::seq::group_seq_axioms, vstd::std_specs::vec::group_vec_axioms;

/// Access token of the empty state type.
pub struct NoAccessToken;

/// Access token of the filled state type.
pub struct AccessToken(pub String);

/// Title of the empty state type.
pub struct NoTitle;

/// Title of the filled state type.
pub struct Title(pub String);

/// Content of the empty state type.
pub struct NoContent;

/// Content of the filled state type.
pub struct Content(pub Vec<Node>);

/// Path of the empty state type.
pub struct NoPath;

/// Path of the filled state type.
pub struct Path(pub String);

/// One ready-to-send request: the operation's endpoint and its
/// form-encoded body. Only a builder whose required fields are all filled
/// can produce one.
pub struct ApiRequest {
    /// The operation's endpoint URL.
    pub url: String,
    /// The form-encoded request body.
    pub body: String,
}

/// The characters of an optional string field.
pub open spec fn opt_str_v(o: Option<String>) -> Option<Seq<char>> {
    match o {
        Some(s) => Some(s@),
        None => None,
    }
}

/// An optional form field: its prefix and encoded value when set, nothing
/// when unset.
pub open spec fn field_opt(prefix: Seq<char>, v: Option<Seq<char>>) -> Seq<char> {
    match v {
        Some(s) => prefix + urlenc(s),
        None => Seq::empty(),
    }
}

/// The form text of a boolean.
pub open spec fn bool_text(b: bool) -> Seq<char> {
    if b {
        "true"@
    } else {
        "false"@
    }
}

/// An optional integer form field.
pub open spec fn field_opt_int(prefix: Seq<char>, v: Option<i32>) -> Seq<char> {
    match v {
        Some(i) => prefix + crate::json::print_int(i as int),
        None => Seq::empty(),
    }
}

/// Appends an optional form field.
pub fn append_opt(prefix: &str, v: &Option<String>, out: &mut Vec<char>)
    ensures
        final(out)@ == old(out)@ + field_opt(prefix@, opt_str_v(*v)),
{
    match v {
        Some(s) => {
            append_str(prefix, out);
            append_urlenc(s.as_str(), out);
        },
        None => {
            proof {
                assert(out@ =~= old(out)@ + Seq::<char>::empty());
            }
        },
    }
}

/// Appends an optional integer form field.
pub fn append_opt_int(prefix: &str, v: &Option<i32>, out: &mut Vec<char>)
    ensures
        final(out)@ == old(out)@ + field_opt_int(prefix@, *v),
{
    match v {
        Some(i) => {
            append_str(prefix, out);
            crate::json::write_int(*i as i64, out);
        },
        None => {
            proof {
                assert(out@ =~= old(out)@ + Seq::<char>::empty());
            }
        },
    }
}

/// Appends the form text of a boolean.
pub fn append_bool(b: bool, out: &mut Vec<char>)
    ensures
        final(out)@ == old(out)@ + bool_text(b),
{
    if b {
        append_str("true", out);
    } else {
        append_str("false", out);
    }
}

/// Serializes builder fields that travel as JSON text inside a single form
/// value.
pub struct ApiFieldSerializer;

impl ApiFieldSerializer {
    /// The JSON text of an account-field list, exactly as it is embedded in
    /// the `fields` form value: the vocabulary names, case preserved.
    pub fn serialize_fields(fields: &Vec<AccountField>) -> (s: String)
        ensures
            s@ == print_jsonv(fields_jsonv(fields@)),
    {
        let n = fields.len();
        let mut js: Vec<crate::json::JsonValue> = Vec::new();
        let mut k: usize = 0;
        while k < n
            invariant
                n == fields@.len(),
                k <= n,
                crate::json::jsonv_of_seq(js@) == field_names_jsonv(fields@.take(k as int)),
            decreases n - k,
        {
            let jv = crate::json::JsonValue::Str(account_field_chars(&fields[k]));
            let ghost js0 = js@;
            js.push(jv);
            proof {
                assert(js@ =~= js0.push(js@[js@.len() - 1]));
                crate::json::lemma_jsonv_of_seq_snoc(js0, js@[js@.len() - 1]);
                assert(fields@.take(k + 1 as int) =~= fields@.take(k as int).push(
                    fields@[k as int],
                ));
                crate::types::account::lemma_field_names_jsonv_snoc(
                    fields@.take(k as int),
                    fields@[k as int],
                );
            }
            k = k + 1;
        }
        proof {
            assert(fields@.take(n as int) =~= fields@);
        }
        let j = crate::json::JsonValue::Arr(js);
        let cs = crate::json::json_to_chars(&j);
        chars_to_string(&cs)
    }

    /// The JSON text of a content tree, exactly as it is embedded in the
    /// `content` form value.
    pub fn serialize_content(nodes: &Vec<Node>) -> (s: String)
        ensures
            s@ == crate::types::node::content_string(crate::types::node::nodes_v_of(nodes@)),
    {
        crate::types::node::content_to_string(nodes)
    }
}

} // verus!
