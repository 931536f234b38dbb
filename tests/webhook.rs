use webhook_cli::cli::{Action, Cli};
use webhook_cli::configs::{Configs, ConfigsBuilder, ConfigsEnvironment};
use webhook_cli::error::Error;
use webhook_cli::template::WebHookTemplate;
use webhook_cli::text::{ends_with, push_decimal, replace_all, strip_suffix};

fn cli() -> Cli {
    Cli {
        webhook: None,
        list: false,
        simulate: false,
        url: None,
        inject: None,
        verbose: false,
    }
}

fn configs() -> Configs {
    ConfigsBuilder::new().unwrap().build()
}

fn strings(v: &[&str]) -> Vec<String> {
    v.iter().map(|s| s.to_string()).collect()
}

#[test]
fn defaults_apply_without_overrides() {
    let c = configs();
    assert_eq!(c.inventory_path(), "./inventory/");
    assert_eq!(c.user_agent(), "webhook_cli/0.1.0");
    assert!(c.ssl_verify());
}

#[test]
fn environment_overrides_defaults() {
    let env = ConfigsEnvironment::new(Some("/srv/hooks".to_string()), Some("agent/2".to_string()), Some(false));
    let c = ConfigsBuilder::new().unwrap().from_env(env).build();
    assert_eq!(c.inventory_path(), "/srv/hooks");
    assert_eq!(c.user_agent(), "agent/2");
    assert!(!c.ssl_verify());
}

#[test]
fn environment_applies_only_present_fields() {
    let env = ConfigsEnvironment::new(None, Some("agent/2".to_string()), None);
    let c = ConfigsBuilder::new().unwrap().from_env(env).build();
    assert_eq!(c.inventory_path(), "./inventory/");
    assert_eq!(c.user_agent(), "agent/2");
    assert!(c.ssl_verify());
}

#[test]
fn explicit_overrides_environment_in_either_order() {
    let env = || ConfigsEnvironment::new(Some("/env".to_string()), Some("env-agent".to_string()), Some(true));
    let before = ConfigsBuilder::new()
        .unwrap()
        .ssl_verify(false)
        .inventory_path("/explicit".to_string())
        .user_agent("explicit-agent".to_string())
        .from_env(env())
        .build();
    let after = ConfigsBuilder::new()
        .unwrap()
        .from_env(env())
        .ssl_verify(false)
        .inventory_path("/explicit".to_string())
        .user_agent("explicit-agent".to_string())
        .build();
    for c in [before, after] {
        assert_eq!(c.inventory_path(), "/explicit");
        assert_eq!(c.user_agent(), "explicit-agent");
        assert!(!c.ssl_verify());
    }
}

#[test]
fn later_environment_fields_win_over_earlier_ones() {
    let c = ConfigsBuilder::new()
        .unwrap()
        .from_env(ConfigsEnvironment::new(Some("/first".to_string()), None, None))
        .from_env(ConfigsEnvironment::new(Some("/second".to_string()), None, None))
        .build();
    assert_eq!(c.inventory_path(), "/second");
}

#[test]
fn injection_is_order_stable() {
    let mut c = cli();
    c.inject = Some(strings(&["a", "b"]));
    assert_eq!(c.render_template("$1-$2"), "a-b");
}

#[test]
fn injection_without_tokens_is_identity() {
    let mut c = cli();
    c.inject = Some(strings(&["a", "b"]));
    let t = r#"{"url":"https://x.test","data":{"k":"v"}}"#;
    assert_eq!(c.render_template(t), t);
}

#[test]
fn url_pass_replaces_every_occurrence() {
    let mut c = cli();
    c.url = Some("https://h.test".to_string());
    assert_eq!(c.render_template("$URL and $URL"), "https://h.test and https://h.test");
}

#[test]
fn url_token_left_when_no_override() {
    let c = cli();
    assert_eq!(c.render_template("$URL $1"), "$URL $1");
}

#[test]
fn injected_values_are_not_escaped() {
    let mut c = cli();
    c.inject = Some(strings(&["say \"hi\""]));
    assert_eq!(c.render_template("\"$1\""), "\"say \"hi\"\"");
}

#[test]
fn tenth_value_uses_two_digit_token() {
    let mut c = cli();
    c.inject = Some(strings(&["1", "2", "3", "4", "5", "6", "7", "8", "9", "ten"]));
    assert_eq!(c.render_template("$10"), "10");
    let mut d = cli();
    d.inject = Some(strings(&["x"]));
    assert_eq!(d.render_template("$10"), "x0");
}

#[test]
fn replace_all_scans_left_to_right_without_overlap() {
    assert_eq!(replace_all("aaa", "aa", "b"), "ba");
    assert_eq!(replace_all("xyz", "q", "b"), "xyz");
    assert_eq!(replace_all("", "q", "b"), "");
    assert_eq!(replace_all("héllo $1 wörld $1", "$1", "ß"), "héllo ß wörld ß");
}

#[test]
fn suffix_helpers() {
    assert!(ends_with("ping.json", ".json"));
    assert!(!ends_with("json", ".json"));
    assert_eq!(strip_suffix("ping.json", ".json"), "ping");
    assert_eq!(strip_suffix("ping.json.json", ".json"), "ping.json");
    assert_eq!(strip_suffix("ping", ".json"), "ping");
}

#[test]
fn decimal_rendering() {
    let mut s = "$".to_string();
    push_decimal(&mut s, 0);
    assert_eq!(s, "$0");
    let mut t = String::new();
    push_decimal(&mut t, 1203);
    assert_eq!(t, "1203");
}

#[test]
fn template_path_normalises_suffix() {
    let c = ConfigsBuilder::new().unwrap().inventory_path("/srv/inv".to_string()).build();
    assert_eq!(Cli::template_path("ping", &c), "/srv/inv/ping.json");
    assert_eq!(Cli::template_path("ping.json", &c), "/srv/inv/ping.json");
}

#[test]
fn template_parses_url_and_data() {
    let w = WebHookTemplate::from_text(r#"{"url":"https://a.test/x","data":[1,2],"extra":true}"#).unwrap();
    assert_eq!(w.url, "https://a.test/x");
    assert_eq!(w.data, "[1,2]");
}

#[test]
fn template_errors() {
    for bad in [
        "not json",
        r#"{"data":{}}"#,
        r#"{"url":5,"data":{}}"#,
        r#"{"url":"https://a.test"}"#,
        r#"[1,2]"#,
        r#"{"url":"https://a.test","data":1"#,
    ] {
        assert!(matches!(WebHookTemplate::from_text(bad), Err(Error::TemplateError(_))), "{}", bad);
    }
}

#[test]
fn body_round_trips_data() {
    let text = r#"{"url":"https://a.test","data":{"msg":"hi","n":[1,2.5,null,true],"o":{"k":"v"}}}"#;
    let w = WebHookTemplate::from_text(text).unwrap();
    let body = w.body();
    let again: serde_json::Value = serde_json::from_str(&body).unwrap();
    let original: serde_json::Value = serde_json::from_str(text).unwrap();
    assert_eq!(again, original["data"]);
    assert_eq!(body, r#"{"msg":"hi","n":[1,2.5,null,true],"o":{"k":"v"}}"#);
}

#[test]
fn plan_request_carries_configuration() {
    let c = ConfigsBuilder::new().unwrap().ssl_verify(false).user_agent("ua/1".to_string()).build();
    let w = WebHookTemplate::from_text(r#"{"url":"https://a.test/h","data":{ "a" : 1 }}"#).unwrap();
    let p = Cli::plan_request(&w, &c).unwrap();
    assert_eq!(p.url, "https://a.test/h");
    assert_eq!(p.user_agent, "ua/1");
    assert!(p.accept_invalid_certs);
    assert_eq!(p.body, r#"{"a":1}"#);
}

#[test]
fn relative_url_is_rejected() {
    let w = WebHookTemplate::from_text(r#"{"url":"example.test/hook","data":{}}"#).unwrap();
    assert!(matches!(Cli::plan_request(&w, &configs()), Err(Error::UrlError(_))));
    let w2 = WebHookTemplate::from_text(r#"{"url":"example.test/hook","data":{}}"#).unwrap();
    assert!(matches!(cli().build_request(w2, &configs()), Err(Error::UrlError(_))));
}

#[test]
fn list_with_webhook_or_inject_is_invalid() {
    for (webhook, inject, simulate, verbose) in [
        (true, false, false, false),
        (false, true, false, false),
        (true, true, true, true),
        (false, true, true, false),
    ] {
        let mut c = cli();
        c.list = true;
        c.simulate = simulate;
        c.verbose = verbose;
        if webhook {
            c.webhook = Some("ping".to_string());
        }
        if inject {
            c.inject = Some(strings(&["x"]));
        }
        assert!(matches!(c.action(), Err(Error::InvalidArgsError)));
    }
}

#[test]
fn action_dispatch() {
    let mut l = cli();
    l.list = true;
    assert!(matches!(l.action(), Ok(Action::List)));
    let mut e = cli();
    e.webhook = Some("ping".to_string());
    assert!(matches!(e.action(), Ok(Action::Execute(n)) if n == "ping"));
    assert!(matches!(cli().action(), Ok(Action::Nothing)));
}

#[test]
fn simulate_builds_without_sending() {
    let mut c = cli();
    c.simulate = true;
    c.url = Some("http://127.0.0.1:9/unreachable".to_string());
    let r = c.build_webhook_request(r#"{"url":"$URL","data":{}}"#, &configs());
    assert!(matches!(r, Ok(None)));
}

#[test]
fn ping_scenario_builds_request() {
    let mut c = cli();
    c.webhook = Some("ping".to_string());
    c.url = Some("https://example.test/hook".to_string());
    c.inject = Some(strings(&["world"]));
    let content = r#"{"url":"$URL","data":{"msg":"hi $1"}}"#;
    let req = c.build_webhook_request(content, &configs()).unwrap().unwrap();
    let built = req.build().unwrap();
    assert_eq!(built.method().as_str(), "POST");
    assert_eq!(built.url().as_str(), "https://example.test/hook");
    assert_eq!(built.body().unwrap().as_bytes().unwrap(), br#"{"msg":"hi world"}"#);
}

#[test]
fn substitution_can_break_json() {
    let mut c = cli();
    c.inject = Some(strings(&["a\"b"]));
    let r = c.build_webhook_request(r#"{"url":"https://a.test","data":"$1"}"#, &configs());
    assert!(matches!(r, Err(Error::TemplateError(_))));
}

#[test]
fn empty_inventory_listing() {
    assert_eq!(cli().list_hooks(&Vec::new()), vec!["No webhooks were found.".to_string()]);
}

#[test]
fn listing_filters_json_files() {
    let files = strings(&["ping.json", "notes.txt", ".json", "a.b.json", "json", "deploy.json"]);
    assert_eq!(Cli::webhook_names(&files), strings(&["ping", "a.b", "deploy"]));
    assert_eq!(
        cli().list_hooks(&files),
        strings(&["The following webhooks were found:", "- ping", "- a.b", "- deploy"])
    );
}

#[test]
fn response_reports() {
    let r = cli().report_response(200, "ok body".to_string());
    assert!(r.success);
    assert_eq!(r.lines, strings(&["Response OK"]));
    let mut v = cli();
    v.verbose = true;
    let e = v.report_response(404, "missing".to_string());
    assert!(!e.success);
    assert_eq!(e.lines, strings(&["Response ERR", "missing"]));
    assert!(!v.report_response(201, String::new()).success);
}

#[test]
fn error_messages() {
    assert_eq!(Error::InvalidArgsError.message(), "Can't use those arguments together");
    assert_eq!(Error::UrlError("bad".to_string()).message(), "bad");
}

#[test]
fn template_error_carries_parse_diagnostic() {
    match WebHookTemplate::from_text("{") {
        Err(Error::TemplateError(m)) => assert!(!m.is_empty()),
        _ => panic!("expected a template error"),
    }
}

#[test]
fn plan_webhook_ping_scenario() {
    let mut c = cli();
    c.webhook = Some("ping".to_string());
    c.url = Some("https://example.test/hook".to_string());
    c.inject = Some(strings(&["world"]));
    let p = c.plan_webhook(r#"{"url":"$URL","data":{"msg":"hi $1"}}"#, &configs()).unwrap();
    assert_eq!(p.url, "https://example.test/hook");
    assert_eq!(p.body, r#"{"msg":"hi world"}"#);
    assert_eq!(p.user_agent, "webhook_cli/0.1.0");
    assert!(!p.accept_invalid_certs);
}

#[test]
fn plan_webhook_injects_into_data() {
    let mut c = cli();
    c.inject = Some(strings(&["a", "b"]));
    let p = c.plan_webhook(r#"{"url":"https://example.test/","data":"$1-$2"}"#, &configs()).unwrap();
    assert_eq!(p.body, r#""a-b""#);
}

#[test]
fn url_pass_runs_before_injection() {
    let mut c = cli();
    c.url = Some("https://example.test/$1".to_string());
    c.inject = Some(strings(&["x"]));
    let p = c.plan_webhook(r#"{"url":"$URL","data":null}"#, &configs()).unwrap();
    assert_eq!(p.url, "https://example.test/x");
    assert_eq!(p.body, "null");
}

#[test]
fn plan_webhook_errors() {
    let c = cli();
    assert!(matches!(c.plan_webhook(r#"{"data":{}}"#, &configs()), Err(Error::TemplateError(_))));
    assert!(matches!(c.plan_webhook(r#"{"url":"nope","data":{}}"#, &configs()), Err(Error::UrlError(_))));
}

#[test]
fn simulate_with_unreachable_host_succeeds() {
    let mut c = cli();
    c.simulate = true;
    let r = c.build_webhook_request(r#"{"url":"http://unreachable.invalid:1/hook","data":{}}"#, &configs());
    assert!(matches!(r, Ok(None)));
}

#[test]
fn to_request_builds_post() {
    let plan = Cli::plan_request(
        &WebHookTemplate::new("https://a.test/p".to_string(), "[true]".to_string()),
        &configs(),
    )
    .unwrap();
    let built = Cli::to_request(plan).unwrap().build().unwrap();
    assert_eq!(built.method().as_str(), "POST");
    assert_eq!(built.url().as_str(), "https://a.test/p");
    assert_eq!(built.body().unwrap().as_bytes().unwrap(), b"[true]");
}
