use aioverlay::errors::{ErrorKind, SurfaceStep};
use aioverlay::gateway::{
    bearer_header, classify_status, complete_from_response, models_from_response, plan_completion,
    plan_models_request, UpstreamResponse,
};
use aioverlay::json::{build_completion_body, json_escape};
use aioverlay::overlay::{step_name, surface_failure, toggle_plan};
use aioverlay::prompt::{build_prompt, parse_action, ActionKind};
use aioverlay::shortcut::{
    default_shortcut, validate_shortcut, BindingSource, ShortcutManager, SwapAction, SwapPhase,
};
use aioverlay::text::{dec_string, str_eq, str_eq_nocase, trim};

const DEFAULT: &str = "CommandOrControl+Shift+A";

fn ok_response(body: &str) -> UpstreamResponse {
    UpstreamResponse::Http { status: 200, body: Some(body.to_string()) }
}

// ---- prompt builder ----

#[test]
fn prompts_nonempty_and_deterministic() {
    let actions = vec![
        ActionKind::Proofread,
        ActionKind::ToneRewrite(None),
        ActionKind::ToneRewrite(Some("casual".to_string())),
        ActionKind::DraftExpand,
    ];
    for a in &actions {
        let p1 = build_prompt(a);
        let p2 = build_prompt(a);
        assert!(!p1.is_empty());
        assert_eq!(p1, p2);
    }
}

#[test]
fn prompt_tone_defaults_to_professional() {
    let p = build_prompt(&ActionKind::ToneRewrite(None));
    assert!(p.contains("professional tone"));
    let q = build_prompt(&ActionKind::ToneRewrite(Some("friendly".to_string())));
    assert!(q.contains("friendly tone"));
    assert!(!q.contains("professional tone"));
}

#[test]
fn unknown_action_is_unsupported() {
    let r = parse_action("summarize", None);
    match r {
        Err(e) => {
            assert_eq!(e.kind, ErrorKind::UnsupportedAction);
            assert_eq!(e.detail, "Unknown action specified");
        },
        Ok(_) => panic!("unknown action must fail"),
    }
    assert!(matches!(parse_action("proofread", None), Ok(ActionKind::Proofread)));
    assert!(matches!(parse_action("draft", None), Ok(ActionKind::DraftExpand)));
    assert!(matches!(parse_action("tone", None), Ok(ActionKind::ToneRewrite(None))));
}

// ---- completion client ----

#[test]
fn completion_trims_content() {
    let body = "{\"choices\":[{\"message\":{\"content\":\"  Hello  \"}}]}";
    let r = complete_from_response(ok_response(body));
    assert_eq!(r.unwrap(), "Hello");
}

#[test]
fn completion_401_preserves_body_verbatim() {
    let resp = UpstreamResponse::Http { status: 401, body: Some("bad key".to_string()) };
    let e = complete_from_response(resp).unwrap_err();
    assert_eq!(e.kind, ErrorKind::Unauthorized);
    assert_eq!(e.detail, "bad key");
}

#[test]
fn completion_missing_choices_is_empty_response() {
    let r = complete_from_response(ok_response("{\"id\":\"x\"}"));
    let e = r.unwrap_err();
    assert_eq!(e.kind, ErrorKind::EmptyResponse);
    assert_ne!(e.kind, ErrorKind::ResponseParse);
}

#[test]
fn completion_bad_json_is_response_parse() {
    let e = complete_from_response(ok_response("not json at all")).unwrap_err();
    assert_eq!(e.kind, ErrorKind::ResponseParse);
    assert_eq!(e.detail, "not json at all");
}

#[test]
fn completion_non_string_content_is_empty_response() {
    let body = "{\"choices\":[{\"message\":{\"content\":42}}]}";
    let e = complete_from_response(ok_response(body)).unwrap_err();
    assert_eq!(e.kind, ErrorKind::EmptyResponse);
}

#[test]
fn completion_status_classification() {
    let cases: Vec<(u16, ErrorKind)> = vec![
        (403, ErrorKind::Forbidden),
        (429, ErrorKind::RateLimited),
        (500, ErrorKind::UpstreamError(500)),
        (301, ErrorKind::UpstreamError(301)),
    ];
    for (status, kind) in cases {
        let resp = UpstreamResponse::Http { status, body: Some("detail".to_string()) };
        let e = complete_from_response(resp).unwrap_err();
        assert_eq!(e.kind, kind);
        assert_eq!(e.detail, "detail");
        assert_eq!(classify_status(status), kind);
    }
}

#[test]
fn completion_unreadable_error_body_falls_back_to_status() {
    let resp = UpstreamResponse::Http { status: 404, body: None };
    let e = complete_from_response(resp).unwrap_err();
    assert_eq!(e.kind, ErrorKind::UpstreamError(404));
    assert_eq!(e.detail, "404");
}

#[test]
fn completion_transport_failure_is_network() {
    let resp = UpstreamResponse::Transport { detail: "connection refused".to_string() };
    let e = complete_from_response(resp).unwrap_err();
    assert_eq!(e.kind, ErrorKind::Network);
    assert_eq!(e.detail, "connection refused");
}

#[test]
fn plan_completion_builds_exact_body() {
    let plan = plan_completion("hi", "draft", "m", "k", None, Some(50)).unwrap();
    assert_eq!(plan.url, "https://openrouter.ai/api/v1/chat/completions");
    assert_eq!(plan.api_key, "k");
    let draft_prompt = build_prompt(&ActionKind::DraftExpand);
    let expected = format!(
        "{{\"model\":\"m\",\"messages\":[{{\"role\":\"system\",\"content\":\"{}\"}},{{\"role\":\"user\",\"content\":\"hi\"}}],\"max_tokens\":50,\"temperature\":0.7}}",
        draft_prompt
    );
    assert_eq!(plan.body, expected);
}

#[test]
fn plan_completion_defaults_max_tokens_and_rejects_unknown_action() {
    let plan = plan_completion("t", "proofread", "m", "k", None, None).unwrap();
    assert!(plan.body.contains("\"max_tokens\":2000"));
    let e = plan_completion("t", "mystery", "m", "k", None, None).unwrap_err();
    assert_eq!(e.kind, ErrorKind::UnsupportedAction);
}

#[test]
fn completion_body_round_trips_through_serde_json() {
    let body = build_completion_body("the/model", "sys \"quoted\"", "line1\nline2\ttab\\slash", 7);
    let v: serde_json::Value = serde_json::from_str(&body).expect("body must be valid JSON");
    assert_eq!(v["model"].as_str().unwrap(), "the/model");
    assert_eq!(v["messages"][0]["role"].as_str().unwrap(), "system");
    assert_eq!(v["messages"][0]["content"].as_str().unwrap(), "sys \"quoted\"");
    assert_eq!(v["messages"][1]["content"].as_str().unwrap(), "line1\nline2\ttab\\slash");
    assert_eq!(v["max_tokens"].as_u64().unwrap(), 7);
}

#[test]
fn json_escape_handles_controls() {
    assert_eq!(json_escape("plain"), "plain");
    assert_eq!(json_escape("a\"b"), "a\\\"b");
    assert_eq!(json_escape("a\\b"), "a\\\\b");
    assert_eq!(json_escape("a\nb\rc\td"), "a\\nb\\rc\\td");
    assert_eq!(json_escape("\u{1}\u{1f}"), "\\u0001\\u001f");
}

// ---- model catalog client ----

#[test]
fn models_missing_data_is_empty_success() {
    let r = models_from_response(ok_response("{}")).unwrap();
    assert!(r.is_empty());
    let r2 = models_from_response(ok_response("{\"data\":\"not an array\"}")).unwrap();
    assert!(r2.is_empty());
}

#[test]
fn models_data_entries_come_through() {
    let body = "{\"data\":[{\"id\":\"a\"},{\"id\":\"b\"}]}";
    let r = models_from_response(ok_response(body)).unwrap();
    assert_eq!(r.len(), 2);
    assert_eq!(r[0]["id"].as_str().unwrap(), "a");
    assert_eq!(r[1]["id"].as_str().unwrap(), "b");
}

#[test]
fn models_errors_classified_like_completions() {
    let resp = UpstreamResponse::Http { status: 401, body: Some("no".to_string()) };
    let e = models_from_response(resp).unwrap_err();
    assert_eq!(e.kind, ErrorKind::Unauthorized);
    assert_eq!(e.detail, "no");
    let e2 = models_from_response(ok_response("{{{")).unwrap_err();
    assert_eq!(e2.kind, ErrorKind::ResponseParse);
    let plan = plan_models_request("secret");
    assert_eq!(plan.url, "https://openrouter.ai/api/v1/models");
    assert_eq!(bearer_header("secret"), "Bearer secret");
}

// ---- shortcut manager ----

fn drive_swap(mgr: &mut ShortcutManager, raw: &str) -> Result<(), aioverlay::errors::ClassifiedError> {
    let first = mgr.begin_swap(raw.to_string())?;
    assert!(matches!(first, SwapAction::UnregisterAll));
    let reg = mgr.on_unregistered();
    match reg {
        SwapAction::Register(p) => assert_eq!(p, raw),
        _ => panic!("expected a register step"),
    }
    let persist = mgr.on_register_result(true, String::new())?;
    match persist {
        SwapAction::Persist(p) => assert_eq!(p, raw),
        _ => panic!("expected a persist step"),
    }
    mgr.on_persist_result(true, String::new())
}

#[test]
fn set_then_get_then_reset() {
    let mut mgr = ShortcutManager::startup(None);
    assert_eq!(mgr.get_shortcut(), DEFAULT);
    drive_swap(&mut mgr, "Control+Alt+K").unwrap();
    assert_eq!(mgr.get_shortcut(), "Control+Alt+K");
    assert_eq!(mgr.source, BindingSource::FromUser);
    assert!(mgr.bound);

    let first = mgr.begin_reset().unwrap();
    assert!(matches!(first, SwapAction::UnregisterAll));
    mgr.on_unregistered();
    mgr.on_register_result(true, String::new()).unwrap();
    mgr.on_persist_result(true, String::new()).unwrap();
    assert_eq!(mgr.get_shortcut(), DEFAULT);
    assert_eq!(mgr.source, BindingSource::FromDefault);
}

#[test]
fn invalid_shortcut_leaves_binding_unchanged() {
    let mut mgr = ShortcutManager::startup(Some("Control+Alt+K".to_string()));
    assert_eq!(mgr.get_shortcut(), "Control+Alt+K");
    let e = mgr.begin_swap("not a valid accelerator!!".to_string()).unwrap_err();
    assert_eq!(e.kind, ErrorKind::InvalidShortcutSyntax);
    assert_eq!(mgr.get_shortcut(), "Control+Alt+K");
    assert_eq!(mgr.phase, SwapPhase::Idle);
}

#[test]
fn startup_falls_back_on_unparsable_stored_value() {
    let mgr = ShortcutManager::startup(Some("garbage++".to_string()));
    assert_eq!(mgr.get_shortcut(), DEFAULT);
    assert_eq!(mgr.source, BindingSource::FromDefault);
    assert!(!mgr.bound);
    let mgr2 = ShortcutManager::startup(Some("Shift+F5".to_string()));
    assert_eq!(mgr2.get_shortcut(), "Shift+F5");
    assert_eq!(mgr2.source, BindingSource::FromUser);
}

#[test]
fn register_failure_surfaces_and_leaves_unbound() {
    let mut mgr = ShortcutManager::startup(None);
    mgr.begin_swap("Alt+Q".to_string()).unwrap();
    mgr.on_unregistered();
    let e = mgr.on_register_result(false, "registry said no".to_string()).unwrap_err();
    assert_eq!(e.kind, ErrorKind::RegistrationFailed);
    assert_eq!(e.detail, "registry said no");
    assert!(!mgr.bound);
    assert_eq!(mgr.get_shortcut(), DEFAULT);
    assert_eq!(mgr.phase, SwapPhase::Idle);
}

#[test]
fn persist_failure_keeps_old_presented_value() {
    let mut mgr = ShortcutManager::startup(None);
    mgr.begin_swap("Alt+Q".to_string()).unwrap();
    mgr.on_unregistered();
    mgr.on_register_result(true, String::new()).unwrap();
    let e = mgr.on_persist_result(false, "disk full".to_string()).unwrap_err();
    assert_eq!(e.kind, ErrorKind::PersistenceFailure);
    assert_eq!(e.detail, "disk full");
    assert_eq!(mgr.get_shortcut(), DEFAULT);
    assert!(mgr.bound);
}

#[test]
fn accelerator_grammar_cases() {
    assert!(validate_shortcut("Control+Alt+K"));
    assert!(validate_shortcut("CommandOrControl+Shift+A"));
    assert!(validate_shortcut(&default_shortcut()));
    assert!(validate_shortcut("ctrl+shift+p"));
    assert!(validate_shortcut("F12"));
    assert!(validate_shortcut("Shift+F1"));
    assert!(validate_shortcut("Super+Space"));
    assert!(validate_shortcut("9"));
    assert!(!validate_shortcut(""));
    assert!(!validate_shortcut("not a valid accelerator!!"));
    assert!(!validate_shortcut("Control+"));
    assert!(!validate_shortcut("+A"));
    assert!(!validate_shortcut("Control++A"));
    assert!(!validate_shortcut("A+Control"));
    assert!(!validate_shortcut("Control+Alt"));
    assert!(!validate_shortcut("F25"));
    assert!(!validate_shortcut("Control + A"));
}

// ---- overlay controller ----

#[test]
fn toggle_from_hidden_shows_centers_focuses_in_order() {
    let plan = toggle_plan(false);
    assert_eq!(
        plan,
        vec![SurfaceStep::ShowStep, SurfaceStep::CenterStep, SurfaceStep::FocusStep]
    );
    let plan2 = toggle_plan(true);
    assert_eq!(plan2, vec![SurfaceStep::HideStep]);
}

#[test]
fn toggle_twice_from_hidden_ends_hidden() {
    let mut visible = false;
    for _ in 0..2 {
        let plan = toggle_plan(visible);
        // every step succeeds: one full toggle flips visibility once
        assert!(!plan.is_empty());
        visible = !visible;
    }
    assert!(!visible);
}

#[test]
fn surface_failure_names_the_step() {
    let e = surface_failure(SurfaceStep::CenterStep, "oops".to_string());
    assert_eq!(e.kind, ErrorKind::SurfaceOperationFailed(SurfaceStep::CenterStep));
    assert_eq!(e.detail, "oops");
    assert_eq!(step_name(SurfaceStep::ShowStep), "show");
    assert_eq!(step_name(SurfaceStep::HideStep), "hide");
}

// ---- text utilities ----

#[test]
fn text_utilities() {
    assert_eq!(trim("  Hello  "), "Hello");
    assert_eq!(trim("\n\tx\r\n"), "x");
    assert_eq!(trim("   "), "");
    assert_eq!(trim("solid"), "solid");
    assert_eq!(dec_string(0), "0");
    assert_eq!(dec_string(12345), "12345");
    assert_eq!(dec_string(65535), "65535");
    assert!(str_eq("abc", "abc"));
    assert!(!str_eq("abc", "abd"));
    assert!(str_eq_nocase("CoNtRoL", "control"));
    assert!(!str_eq_nocase("controls", "control"));
}
