//! Webhook templates: the `{url, data}` JSON document that a substituted
//! template file must hold.
use vstd::prelude::*;
use crate::error::Error;
use crate::json::{is_json, json_member_text, json_string_member, member_text, parse_check, string_member};

verus! {

/// Whether the text `t` is a template: JSON holding an object with a string
/// member `url` and a member `data` of any kind.
pub open spec fn template_ok(t: Seq<char>) -> bool {
    &&& is_json(t)
    &&& json_string_member(t, "url"@) is Some
    &&& json_member_text(t, "data"@) is Some
}

/// The target that template text `t` names.
pub open spec fn template_url_of(t: Seq<char>) -> Seq<char> {
    json_string_member(t, "url"@)->0
}

/// The canonical JSON text of the payload of template text `t`.
pub open spec fn template_data_of(t: Seq<char>) -> Seq<char> {
    json_member_text(t, "data"@)->0
}

/// A resolved webhook definition: where to send, and the payload as its
/// canonical (compact) JSON text.
#[derive(Debug)]
pub struct WebHookTemplate {
    pub url: String,
    pub data: String,
}

impl WebHookTemplate {
    /// A definition with the given target and payload text.
    pub fn new(url: String, data: String) -> (r: WebHookTemplate)
        ensures
            r.url == url,
            r.data == data,
    {
        WebHookTemplate { url, data }
    }

    /// Reads a substituted template: a JSON object with a string member `url`
    /// and a member `data` of any kind. Other members are ignored.
    pub fn from_text(text: &str) -> (r: Result<WebHookTemplate, Error>)
        ensures
            r is Ok <==> template_ok(text@),
            r matches Ok(w) ==> w.url@ == template_url_of(text@) && w.data@ == template_data_of(
                text@,
            ),
            r matches Err(e) ==> e is TemplateError,
    {
        proof {
            reveal_strlit("url");
            reveal_strlit("data");
        }
        if let Err(e) = parse_check(text) {
            return Err(Error::TemplateError(e));
        }
        let url = match string_member(text, "url") {
            Some(s) => s,
            None => {
                return Err(Error::TemplateError("missing string field `url`".to_string()));
            },
        };
        let data = match member_text(text, "data") {
            Some(d) => d,
            None => {
                return Err(Error::TemplateError("missing field `data`".to_string()));
            },
        };
        Ok(WebHookTemplate { url, data })
    }

    /// The request body: the canonical JSON text of `data`.
    pub fn body(&self) -> (r: String)
        ensures
            r@ == self.data@,
    {
        self.data.clone()
    }
}

} // verus!
