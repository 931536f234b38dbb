//! The invocation controller: argument validation, template substitution,
//! request construction, inventory listing and response reporting. What it
//! reads from disk or the network is handed to it as plain values.
use vstd::prelude::*;
use crate::configs::{opt_view, Configs};
use crate::error::Error;
use crate::http::{is_absolute_url, new_client, parse_url, post_with_body};
use crate::template::{template_data_of, template_ok, template_url_of, WebHookTemplate};
use crate::text::{
    decimal, ends_with, has_suffix, lemma_replaced_absent, occurs_in, push_decimal, replace_all, replaced, strip_suffix,
    without_suffix,
};

verus! {

/// The token that the URL override replaces.
pub open spec fn url_token() -> Seq<char> {
    "$URL"@
}

/// The token that the injected value at 1-based position `i` replaces.
pub open spec fn inject_token(i: nat) -> Seq<char> {
    seq!['$'] + decimal(i)
}

/// `s` with the values `vals` injected in ascending order: `$1` first.
pub open spec fn injected(s: Seq<char>, vals: Seq<Seq<char>>) -> Seq<char>
    decreases vals.len(),
{
    if vals.len() == 0 {
        s
    } else {
        replaced(injected(s, vals.drop_last()), inject_token(vals.len()), vals.last())
    }
}

/// Injection leaves a text in which no injection token `$1`..`$n` occurs
/// exactly as it was.
pub proof fn lemma_injection_without_tokens(s: Seq<char>, vals: Seq<Seq<char>>)
    requires
        forall|i: nat| 1 <= i <= vals.len() ==> !occurs_in(s, #[trigger] inject_token(i)),
    ensures
        injected(s, vals) == s,
    decreases vals.len(),
{
    if vals.len() > 0 {
        lemma_injection_without_tokens(s, vals.drop_last());
        lemma_replaced_absent(s, inject_token(vals.len()), vals.last());
    }
}

/// The injection pass is a no-op on a template whose text after the URL
/// pass holds no injection token `$1`..`$n`: substituting with the values
/// gives the same text as substituting without them.
pub proof fn lemma_substitution_without_tokens(
    s: Seq<char>,
    url: Option<Seq<char>>,
    vals: Seq<Seq<char>>,
)
    requires
        forall|i: nat|
            1 <= i <= vals.len() ==> !occurs_in(
                substituted(s, url, None),
                #[trigger] inject_token(i),
            ),
    ensures
        substituted(s, url, Some(vals)) == substituted(s, url, None),
{
    lemma_injection_without_tokens(substituted(s, url, None), vals);
}

/// The views of a list of strings.
pub open spec fn strings_view(v: Seq<String>) -> Seq<Seq<char>> {
    v.map_values(|x: String| x@)
}

/// The text of template `s` after the URL pass (when `url` is given) and the
/// injection pass (when `vals` is given).
pub open spec fn substituted(
    s: Seq<char>,
    url: Option<Seq<char>>,
    vals: Option<Seq<Seq<char>>>,
) -> Seq<char> {
    let after_url = match url {
        Some(u) => replaced(s, url_token(), u),
        None => s,
    };
    match vals {
        Some(v) => injected(after_url, v),
        None => after_url,
    }
}

/// The extension of template files.
pub open spec fn json_ext() -> Seq<char> {
    ".json"@
}

/// The webhook that a file named `f` holds: its name without `.json`, when it
/// has that extension and a non-empty stem.
pub open spec fn webhook_of_file(f: Seq<char>) -> Option<Seq<char>> {
    if has_suffix(f, json_ext()) && f.len() > json_ext().len() {
        Some(without_suffix(f, json_ext()))
    } else {
        None
    }
}

/// The webhooks among the files `fs`, in their order.
pub open spec fn webhooks_of_files(fs: Seq<Seq<char>>) -> Seq<Seq<char>>
    decreases fs.len(),
{
    if fs.len() == 0 {
        Seq::empty()
    } else {
        webhooks_of_files(fs.drop_last()) + match webhook_of_file(fs.last()) {
            Some(n) => seq![n],
            None => Seq::empty(),
        }
    }
}

/// The listing printed for the webhooks `names`: a header, then one line
/// per name.
pub open spec fn listing(names: Seq<Seq<char>>) -> Seq<Seq<char>> {
    seq![
        if names.len() == 0 {
            "No webhooks were found."@
        } else {
            "The following webhooks were found:"@
        },
    ] + names.map_values(|n: Seq<char>| "- "@ + n)
}

/// The file that holds the template of webhook `name`.
pub open spec fn template_file(inventory_path: Seq<char>, name: Seq<char>) -> Seq<char> {
    inventory_path + "/"@ + without_suffix(name, json_ext()) + json_ext()
}

/// What an invocation asks for.
#[derive(Debug)]
pub enum Action {
    /// Enumerate the inventory.
    List,
    /// Resolve, build and (unless simulating) send the named webhook.
    Execute(String),
    /// Nothing to do.
    Nothing,
}

/// The user-visible outcome of a sent request: whether it succeeded and the
/// lines to print.
#[derive(Debug)]
pub struct ResponseReport {
    pub success: bool,
    pub lines: Vec<String>,
}

/// An unsent request as plain values: target, identity, TLS policy and body.
#[derive(Debug)]
pub struct RequestPlan {
    pub url: String,
    pub user_agent: String,
    pub accept_invalid_certs: bool,
    pub body: String,
}

/// A parsed command invocation.
#[derive(Debug)]
pub struct Cli {
    /// Webhook to execute.
    pub webhook: Option<String>,
    /// Lists all available webhooks.
    pub list: bool,
    /// Builds the request without sending it.
    pub simulate: bool,
    /// Replaces `$URL` in the template.
    pub url: Option<String>,
    /// Values that replace `$1`..`$n`, in order.
    pub inject: Option<Vec<String>>,
    /// Enables enhanced output.
    pub verbose: bool,
}

impl Cli {
    /// The injected values as character sequences.
    pub open spec fn inject_view(&self) -> Option<Seq<Seq<char>>> {
        match self.inject {
            Some(v) => Some(strings_view(v@)),
            None => None,
        }
    }

    /// Whether `list` is combined with a webhook or injected values.
    pub open spec fn conflicting(&self) -> bool {
        self.list && (self.webhook is Some || self.inject is Some)
    }

    /// Decides what the invocation asks for, refusing `list` combined with a
    /// webhook name or injected values.
    pub fn action(&self) -> (r: Result<Action, Error>)
        ensures
            r is Err <==> self.conflicting(),
            r matches Err(e) ==> e is InvalidArgsError,
            r matches Ok(a) ==> (a is List <==> self.list),
            r matches Ok(a) ==> (a is Nothing <==> (!self.list && self.webhook is None)),
            r matches Ok(Action::Execute(n)) ==> self.webhook matches Some(w) && n@ == w@,
    {
        if self.list {
            if self.webhook.is_some() || self.inject.is_some() {
                return Err(Error::InvalidArgsError);
            }
            return Ok(Action::List);
        }
        match &self.webhook {
            Some(w) => Ok(Action::Execute(w.clone())),
            None => Ok(Action::Nothing),
        }
    }

    /// The path of the template of `webhook`, whose `.json` suffix, if
    /// given, is dropped before it is added back.
    pub fn template_path(webhook: &str, c: &Configs) -> (r: String)
        ensures
            r@ == template_file(c@.inventory_path, webhook@),
    {
        let name = strip_suffix(webhook, ".json");
        let mut r = c.inventory_path().to_string();
        r.append("/");
        r.append(name.as_str());
        r.append(".json");
        r
    }

    /// The template text after substitution: `$URL` first, when a URL is
    /// given, then `$1`, `$2`, ... in ascending order.
    pub fn render_template(&self, content: &str) -> (r: String)
        ensures
            r@ == substituted(content@, opt_view(self.url), self.inject_view()),
    {
        proof {
            reveal_strlit("$URL");
        }
        let mut out = match &self.url {
            Some(u) => replace_all(content, "$URL", u.as_str()),
            None => content.to_string(),
        };
        let ghost after_url = out@;
        match &self.inject {
            Some(vals) => {
                let ghost vs = strings_view(vals@);
                let mut i: usize = 0;
                assert(vs.take(0) =~= Seq::<Seq<char>>::empty());
                while i < vals.len()
                    invariant
                        vs == strings_view(vals@),
                        i <= vals@.len(),
                        out@ == injected(after_url, vs.take(i as int)),
                    decreases vals@.len() - i,
                {
                    proof {
                        reveal_strlit("$");
                    }
                    let mut tok = "$".to_string();
                    push_decimal(&mut tok, i + 1);
                    assert(tok@ =~= inject_token((i + 1) as nat));
                    out = replace_all(out.as_str(), tok.as_str(), vals[i].as_str());
                    assert(vs.take(i + 1).drop_last() =~= vs.take(i as int));
                    assert(vs.take(i + 1).last() == vals@[i as int]@);
                    i = i + 1;
                }
                assert(vs.take(i as int) =~= vs);
            },
            None => {},
        }
        out
    }

    /// The request that `w` and `c` describe, as plain values: a POST to
    /// `w.url` with `w.data` as body. Fails with `UrlError` exactly when the
    /// target is not an absolute URL.
    pub fn plan_request(w: &WebHookTemplate, c: &Configs) -> (r: Result<RequestPlan, Error>)
        ensures
            r is Ok <==> is_absolute_url(w.url@),
            r matches Err(e) ==> e is UrlError,
            r matches Ok(p) ==> {
                &&& p.url@ == w.url@
                &&& p.user_agent@ == c@.user_agent
                &&& p.accept_invalid_certs == !c@.ssl_verify
                &&& p.body@ == w.data@
            },
    {
        if let Err(e) = parse_url(w.url.as_str()) {
            return Err(Error::UrlError(e));
        }
        Ok(
            RequestPlan {
                url: w.url.clone(),
                user_agent: c.user_agent().to_string(),
                accept_invalid_certs: !c.ssl_verify(),
                body: w.body(),
            },
        )
    }

    /// The request that the template text `content` describes under this
    /// invocation and `c`, as plain values: substitution, then template
    /// reading, then request planning. Building it touches no network.
    pub fn plan_webhook(&self, content: &str, c: &Configs) -> (r: Result<RequestPlan, Error>)
        ensures
            ({
                let t = substituted(content@, opt_view(self.url), self.inject_view());
                &&& (r matches Err(Error::TemplateError(_))) <==> !template_ok(t)
                &&& (r matches Err(Error::UrlError(_))) <==> template_ok(t) && !is_absolute_url(
                    template_url_of(t),
                )
                &&& (r matches Err(e) ==> e is TemplateError || e is UrlError)
                &&& (r matches Ok(p) ==> {
                    &&& p.url@ == template_url_of(t)
                    &&& p.body@ == template_data_of(t)
                    &&& p.user_agent@ == c@.user_agent
                    &&& p.accept_invalid_certs == !c@.ssl_verify
                })
            }),
    {
        let text = self.render_template(content);
        let w = match WebHookTemplate::from_text(text.as_str()) {
            Ok(w) => w,
            Err(e) => {
                return Err(e);
            },
        };
        Cli::plan_request(&w, c)
    }

    /// Builds, without sending, the POST request that `plan` describes.
    /// Only setting up the HTTP client (its TLS backend) can fail.
    pub fn to_request(plan: RequestPlan) -> (r: Result<reqwest::blocking::RequestBuilder, Error>)
        ensures
            r matches Err(Error::UrlError(_)) <==> !is_absolute_url(plan.url@),
            r matches Err(e) ==> e is UrlError || e is UnexpectedError,
    {
        let url = match parse_url(plan.url.as_str()) {
            Ok(u) => u,
            Err(e) => {
                return Err(Error::UrlError(e));
            },
        };
        let client = match new_client(plan.user_agent.as_str(), plan.accept_invalid_certs) {
            Ok(cl) => cl,
            Err(e) => {
                return Err(Error::UnexpectedError(e));
            },
        };
        Ok(post_with_body(&client, url, plan.body))
    }

    /// Builds, without sending, the POST request that `w` and `c` describe.
    pub fn build_request(&self, w: WebHookTemplate, c: &Configs) -> (r: Result<
        reqwest::blocking::RequestBuilder,
        Error,
    >)
        ensures
            r matches Err(Error::UrlError(_)) <==> !is_absolute_url(w.url@),
            r matches Err(e) ==> e is UrlError || e is UnexpectedError,
    {
        let plan = match Cli::plan_request(&w, c) {
            Ok(p) => p,
            Err(e) => {
                return Err(e);
            },
        };
        Cli::to_request(plan)
    }

    /// Resolves the template text `content` of a webhook and builds its
    /// request from `plan_webhook`'s plan. When simulating, the request is
    /// built and then dropped.
    pub fn build_webhook_request(&self, content: &str, c: &Configs) -> (r: Result<
        Option<reqwest::blocking::RequestBuilder>,
        Error,
    >)
        ensures
            ({
                let t = substituted(content@, opt_view(self.url), self.inject_view());
                &&& (r matches Err(Error::TemplateError(_))) <==> !template_ok(t)
                &&& (r matches Err(Error::UrlError(_))) <==> template_ok(t) && !is_absolute_url(
                    template_url_of(t),
                )
                &&& (r matches Err(e) ==> e is TemplateError || e is UrlError || e is UnexpectedError)
                &&& (r matches Ok(o) ==> (o is None <==> self.simulate))
            }),
    {
        let plan = match self.plan_webhook(content, c) {
            Ok(p) => p,
            Err(e) => {
                return Err(e);
            },
        };
        let req = match Cli::to_request(plan) {
            Ok(q) => q,
            Err(e) => {
                return Err(e);
            },
        };
        if self.simulate {
            Ok(None)
        } else {
            Ok(Some(req))
        }
    }

    /// The webhooks among the inventory's file names, in their order.
    pub fn webhook_names(file_names: &Vec<String>) -> (r: Vec<String>)
        ensures
            strings_view(r@) == webhooks_of_files(strings_view(file_names@)),
    {
        let ghost fs = strings_view(file_names@);
        let mut r: Vec<String> = Vec::new();
        let mut i: usize = 0;
        assert(fs.take(0) =~= Seq::<Seq<char>>::empty());
        assert(strings_view(r@) =~= Seq::<Seq<char>>::empty());
        while i < file_names.len()
            invariant
                fs == strings_view(file_names@),
                i <= file_names@.len(),
                strings_view(r@) == webhooks_of_files(fs.take(i as int)),
            decreases file_names@.len() - i,
        {
            proof {
                reveal_strlit(".json");
            }
            let f = file_names[i].as_str();
            assert(fs.take(i + 1).drop_last() =~= fs.take(i as int));
            assert(fs.take(i + 1).last() == f@);
            if ends_with(f, ".json") && f.unicode_len() > 5 {
                let ghost before = r@;
                r.push(strip_suffix(f, ".json"));
                assert(webhook_of_file(f@) == Some(without_suffix(f@, json_ext())));
                assert(strings_view(r@) =~= strings_view(before) + seq![without_suffix(f@, json_ext())]);
            } else {
                assert(webhook_of_file(f@) is None);
                assert(strings_view(r@) =~= strings_view(r@) + Seq::<Seq<char>>::empty());
            }
            i = i + 1;
        }
        assert(fs.take(i as int) =~= fs);
        r
    }

    /// The lines that list the webhooks `names`.
    pub fn listing_lines(names: &Vec<String>) -> (r: Vec<String>)
        ensures
            strings_view(r@) == listing(strings_view(names@)),
    {
        let ghost ns = strings_view(names@);
        let mut r: Vec<String> = Vec::new();
        if names.len() == 0 {
            r.push("No webhooks were found.".to_string());
        } else {
            r.push("The following webhooks were found:".to_string());
        }
        let ghost head = strings_view(r@);
        let mut i: usize = 0;
        while i < names.len()
            invariant
                ns == strings_view(names@),
                i <= names@.len(),
                head.len() == 1,
                strings_view(r@) == head + ns.take(i as int).map_values(|n: Seq<char>| "- "@ + n),
            decreases names@.len() - i,
        {
            let mut line = "- ".to_string();
            line.append(names[i].as_str());
            let ghost before = r@;
            r.push(line);
            assert(ns.take(i + 1).map_values(|n: Seq<char>| "- "@ + n) =~= ns.take(i as int).map_values(
                |n: Seq<char>| "- "@ + n,
            ).push("- "@ + ns[i as int]));
            assert(strings_view(r@) =~= strings_view(before).push(line@));
            i = i + 1;
        }
        assert(ns.take(i as int) =~= ns);
        assert(strings_view(r@) =~= listing(ns));
        r
    }

    /// The lines printed for an inventory whose file names are `file_names`.
    pub fn list_hooks(&self, file_names: &Vec<String>) -> (r: Vec<String>)
        ensures
            strings_view(r@) == listing(webhooks_of_files(strings_view(file_names@))),
    {
        let names = Cli::webhook_names(file_names);
        Cli::listing_lines(&names)
    }

    /// The report on a response with HTTP status `status` and text `body`:
    /// only status 200 counts as success; the body is shown when verbose.
    pub fn report_response(&self, status: u16, body: String) -> (r: ResponseReport)
        ensures
            r.success == (status == 200),
            r.lines@.len() == if self.verbose { 2nat } else { 1nat },
            r.lines@[0]@ == if status == 200 { "Response OK"@ } else { "Response ERR"@ },
            self.verbose ==> r.lines@[1]@ == body@,
    {
        let success = status == 200;
        let mut lines: Vec<String> = Vec::new();
        if success {
            lines.push("Response OK".to_string());
        } else {
            lines.push("Response ERR".to_string());
        }
        if self.verbose {
            lines.push(body);
        }
        ResponseReport { success, lines }
    }
}

} // verus!
