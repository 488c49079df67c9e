use axum_skeleton::config::{parse_port, resolve_port, ConfigError, DEFAULT_PORT};
use axum_skeleton::json::{escape_json, health_json, message_json, users_json};
use axum_skeleton::responses::{get_users, health, health_with_timestamp, root};
use axum_skeleton::routing::{handle, match_route, respond, str_eq, Route};

#[test]
fn test_root() {
    let body = root();
    assert_eq!(body.message, "Axum skeleton API is running!");
}

#[test]
fn test_health() {
    let body = health();
    assert_eq!(body.status, "healthy");
    assert!(!body.timestamp.is_empty());
}

#[test]
fn test_get_users() {
    let body = get_users();
    assert_eq!(body.users.len(), 0);
}

#[test]
fn root_scenario_exact_body() {
    let r = respond("/", "2024-01-01T00:00:00+00:00");
    assert_eq!(r.status, 200);
    assert_eq!(r.body, "{\"message\":\"Axum skeleton API is running!\"}");
}

#[test]
fn health_scenario_exact_body() {
    let r = respond("/health", "2024-01-01T00:00:00+00:00");
    assert_eq!(r.status, 200);
    assert_eq!(
        r.body,
        "{\"status\":\"healthy\",\"timestamp\":\"2024-01-01T00:00:00+00:00\"}"
    );
}

#[test]
fn users_scenario_exact_body() {
    let r = respond("/api/users", "2024-01-01T00:00:00+00:00");
    assert_eq!(r.status, 200);
    assert_eq!(r.body, "{\"users\":[]}");
}

#[test]
fn unknown_route_is_not_found() {
    let r = respond("/nonexistent", "2024-01-01T00:00:00+00:00");
    assert_eq!(r.status, 404);
    assert_eq!(r.body, "");
    let r2 = respond("/api", "2024-01-01T00:00:00+00:00");
    assert_eq!(r2.status, 404);
    let r3 = respond("", "2024-01-01T00:00:00+00:00");
    assert_eq!(r3.status, 404);
}

#[test]
fn cors_headers_on_every_route() {
    for path in ["/", "/health", "/api/users", "/nonexistent"] {
        let r = respond(path, "2024-01-01T00:00:00+00:00");
        assert_eq!(r.allow_origin, "*");
        assert_eq!(r.allow_methods, "*");
        assert_eq!(r.allow_headers, "*");
        let h = handle(path);
        assert_eq!(h.allow_origin, "*");
        assert_eq!(h.allow_methods, "*");
        assert_eq!(h.allow_headers, "*");
    }
}

#[test]
fn users_route_idempotent() {
    let first = respond("/api/users", "2024-01-01T00:00:00+00:00");
    let second = respond("/api/users", "2030-06-15T12:34:56+00:00");
    assert_eq!(first.status, second.status);
    assert_eq!(first.body, second.body);
    assert_eq!(first.body, "{\"users\":[]}");
}

#[test]
fn route_matching() {
    assert_eq!(match_route("/"), Route::Root);
    assert_eq!(match_route("/health"), Route::HealthCheck);
    assert_eq!(match_route("/api/users"), Route::UserList);
    assert_eq!(match_route("/health/"), Route::NotFound);
    assert_eq!(match_route("health"), Route::NotFound);
    assert_eq!(match_route(""), Route::NotFound);
}

#[test]
fn string_equality() {
    assert!(str_eq("", ""));
    assert!(str_eq("/health", "/health"));
    assert!(!str_eq("/health", "/healthy"));
    assert!(!str_eq("abc", "abd"));
    assert!(str_eq("über", "über"));
}

#[test]
fn handle_reads_the_clock() {
    let r = handle("/health");
    assert_eq!(r.status, 200);
    let prefix = "{\"status\":\"healthy\",\"timestamp\":\"";
    assert!(r.body.starts_with(prefix));
    assert!(r.body.ends_with("\"}"));
    let ts = &r.body[prefix.len()..r.body.len() - 2];
    assert!(!ts.is_empty());
    assert!(ts.ends_with("+00:00"));
    let parsed = chrono::DateTime::parse_from_rfc3339(ts).expect("timestamp parses as RFC 3339");
    let age = (chrono::Utc::now() - parsed.with_timezone(&chrono::Utc)).num_seconds();
    assert!(age.abs() < 60);
}

#[test]
fn health_timestamp_parses_and_is_recent() {
    let h = health();
    let parsed =
        chrono::DateTime::parse_from_rfc3339(&h.timestamp).expect("timestamp parses as RFC 3339");
    let age = (chrono::Utc::now() - parsed.with_timezone(&chrono::Utc)).num_seconds();
    assert!(age.abs() < 60);
    assert!(h.timestamp.len() >= 25);
    assert!(h.timestamp.ends_with("+00:00"));
}

#[test]
fn default_port_when_absent() {
    assert_eq!(resolve_port(None), Ok(8090));
    assert_eq!(DEFAULT_PORT, 8090);
}

#[test]
fn port_parses_like_a_u16() {
    assert_eq!(parse_port("8080"), Some(8080));
    assert_eq!(parse_port("0"), Some(0));
    assert_eq!(parse_port("65535"), Some(65535));
    assert_eq!(parse_port("+80"), Some(80));
    assert_eq!(parse_port("08090"), Some(8090));
    assert_eq!(parse_port("65536"), None);
    assert_eq!(parse_port("99999999999999999999"), None);
    assert_eq!(parse_port(""), None);
    assert_eq!(parse_port("+"), None);
    assert_eq!(parse_port("-1"), None);
    assert_eq!(parse_port("80a"), None);
    assert_eq!(parse_port("8 0"), None);
    assert_eq!(parse_port(" 80"), None);
}

#[test]
fn port_parsing_matches_std() {
    for s in [
        "8080", "0", "65535", "65536", "+80", "08090", "", "+", "-1", "80a", " 80", "99999",
    ] {
        assert_eq!(parse_port(s), s.parse::<u16>().ok(), "input {:?}", s);
    }
}

#[test]
fn invalid_port_is_startup_fatal() {
    assert_eq!(resolve_port(Some("not-a-port")), Err(ConfigError::InvalidPort));
    assert_eq!(resolve_port(Some("65536")), Err(ConfigError::InvalidPort));
    assert_eq!(resolve_port(Some("")), Err(ConfigError::InvalidPort));
}

#[test]
fn port_zero_resolves_to_ephemeral_binding() {
    assert_eq!(resolve_port(Some("0")), Ok(0));
}

#[test]
fn json_escaping() {
    assert_eq!(escape_json("plain"), "plain");
    assert_eq!(escape_json("say \"hi\""), "say \\\"hi\\\"");
    assert_eq!(escape_json("back\\slash"), "back\\\\slash");
    assert_eq!(escape_json("tab\there"), "tab\\u0009here");
    assert_eq!(escape_json("\u{1f}"), "\\u001f");
    assert_eq!(escape_json(""), "");
    assert_eq!(escape_json("héllo"), "héllo");
}

#[test]
fn emitted_json_is_parseable() {
    let msg = message_json(&root());
    let v: serde_json::Value = serde_json::from_str(&msg).expect("greeting body parses");
    assert_eq!(
        v.get("message").and_then(|m| m.as_str()),
        Some("Axum skeleton API is running!")
    );

    let h = health_with_timestamp(String::from("2024-01-01T00:00:00+00:00"));
    let hb = health_json(&h);
    let v: serde_json::Value = serde_json::from_str(&hb).expect("health body parses");
    assert_eq!(v.get("status").and_then(|m| m.as_str()), Some("healthy"));
    assert_eq!(
        v.get("timestamp").and_then(|m| m.as_str()),
        Some("2024-01-01T00:00:00+00:00")
    );

    let ub = users_json(&get_users());
    let v: serde_json::Value = serde_json::from_str(&ub).expect("users body parses");
    assert_eq!(v.get("users").and_then(|u| u.as_array()).map(|a| a.len()), Some(0));
}

#[test]
fn escaped_json_round_trips_through_a_parser() {
    let m = axum_skeleton::responses::Message {
        message: String::from("quote \" backslash \\ newline \n end"),
    };
    let body = message_json(&m);
    let v: serde_json::Value = serde_json::from_str(&body).expect("escaped body parses");
    assert_eq!(
        v.get("message").and_then(|s| s.as_str()),
        Some("quote \" backslash \\ newline \n end")
    );
}
