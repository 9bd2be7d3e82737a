use choir::config::{EnvConfig, DEFAULT_PORT};
use choir::response::{make_query_response, QueryResponse};
use choir::routes::choir::choir_reply;
use choir::routes::health::{health_reply, health_request};
use choir::routes::{guard, RouteReply};
use choir::modules::openai::{ChatMessage, ResponseFormat};

#[test]
fn make_query_response_copies_its_parts() {
    let r = make_query_response(true, Some("payload"), None, Some("fine"));
    assert_eq!(
        r,
        QueryResponse {
            success: true,
            data: Some("payload".to_string()),
            error: None,
            message: Some("fine".to_string()),
        }
    );
    let r = make_query_response(false, None, Some("broken"), None);
    assert_eq!(
        r,
        QueryResponse { success: false, data: None, error: Some("broken".to_string()), message: None }
    );
}

#[test]
fn the_choir_route_returns_the_final_answer() {
    let reply = choir_reply(&Ok("<final text>".to_string()));
    assert_eq!(
        reply,
        RouteReply {
            status: 200,
            body: QueryResponse {
                success: true,
                data: Some("<final text>".to_string()),
                error: None,
                message: Some("Model returned a valid response!".to_string()),
            },
        }
    );
}

#[test]
fn the_choir_route_hides_the_cause_of_a_failure() {
    let reply = choir_reply(&Err("provider unreachable: connection refused".to_string()));
    assert_eq!(
        reply,
        RouteReply {
            status: 500,
            body: QueryResponse {
                success: false,
                data: None,
                error: Some("An internal error occurred.".to_string()),
                message: None,
            },
        }
    );
}

#[test]
fn the_health_route_reports_health() {
    assert_eq!(
        health_reply(),
        RouteReply {
            status: 200,
            body: QueryResponse {
                success: true,
                data: Some("Endpoints are healthy!".to_string()),
                error: None,
                message: Some("Server is healthy!".to_string()),
            },
        }
    );
}

#[test]
fn the_health_check_asks_with_its_schema() {
    let schema: serde_json::Value = serde_json::from_str("{\"type\":\"object\"}").unwrap();
    let request = health_request(schema.clone());
    assert_eq!(request.model, "gpt-4o");
    assert_eq!(request.messages.len(), 2);
    match &request.messages[0] {
        ChatMessage::System { content } => {
            assert!(content.contains("You are a fake health check endpoint."));
            assert!(content.starts_with("\n                You are"));
        }
        other => panic!("unexpected message {:?}", other),
    }
    assert_eq!(
        request.messages[1],
        ChatMessage::User { content: "What is the status of the server?".to_string() }
    );
    assert_eq!(
        request.response_format,
        Some(ResponseFormat { name: "root".to_string(), schema })
    );
}

#[test]
fn the_guard_lets_the_configured_key_in() {
    let cfg = EnvConfig::from_values("8080", "key".to_string(), "o".to_string(), "f".to_string());
    assert_eq!(guard(Some("Bearer key"), Some(&cfg)), None);
    let turned_away = guard(Some("Bearer other"), Some(&cfg)).unwrap();
    assert_eq!(turned_away.status, 401);
    assert_eq!(
        turned_away.body,
        QueryResponse {
            success: false,
            data: None,
            error: Some("Unauthorized".to_string()),
            message: None,
        }
    );
    assert_eq!(guard(None, Some(&cfg)).unwrap().status, 401);
    assert_eq!(guard(Some("Bearer key"), None).unwrap().status, 401);
}

#[test]
fn the_port_is_the_number_that_the_text_spells() {
    let cfg = EnvConfig::from_values("8080", "a".to_string(), "b".to_string(), "c".to_string());
    assert_eq!(cfg.port, 8080);
    assert_eq!(cfg.api_key, "a");
    assert_eq!(cfg.oai_key, "b");
    assert_eq!(cfg.firecrawl_key, "c");
    let cfg = EnvConfig::from_values("-1", String::new(), String::new(), String::new());
    assert_eq!(cfg.port, -1);
}

#[test]
fn the_port_falls_back_to_the_default() {
    assert_eq!(DEFAULT_PORT, 8081);
    for text in ["", "http", "80 80", "99999999999", "8080 "] {
        let cfg = EnvConfig::from_values(text, String::new(), String::new(), String::new());
        assert_eq!(cfg.port, 8081, "{:?}", text);
    }
    let cfg = EnvConfig::from_parts(None, String::new(), String::new(), String::new());
    assert_eq!(cfg.port, 8081);
    let cfg = EnvConfig::from_parts(Some(3000), String::new(), String::new(), String::new());
    assert_eq!(cfg.port, 3000);
}
