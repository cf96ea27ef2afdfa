use user_service::services::web_service::{cors_allowed_headers, cors_max_age, json_error_status, json_limit, JsonPayloadFailure};
use user_service::model::enumerate::response::ServerResponse;
use user_service::controllers::health_controller::get_health;
use user_service::middleware::pre_request::{LoggingMiddleware as PreLogging, RequestHeaders};
use user_service::middlewares::authenticate::{is_authorized, Authentication};
use user_service::middlewares::request_logger::{elapsed_ms, LoggingMiddleware, RequestInfo};
use user_service::model::database::users::Register;
use user_service::model::enumerate::logic_code::StatusCode;
use user_service::model::enumerates::logic_code::StatusCode as Code;
use user_service::model::nats::message::{JsonValue, NatsRequest};
use user_service::model::persistent::users::Status;
use user_service::services::clients::kafka_client_service::{producer_settings, send_message_line};
use user_service::services::clients::shared_connection::{ConnectionSlot, Lookup};
use user_service::services::nats_server::{resp_nats, subscription_report, users_create_topic};
use user_service::services::nats_service::{consumer_subscription, message_line, subscribe_line};

#[test]
fn authentication_needs_header() {
    assert!(Authentication::from_request(true).is_ok());
    assert_eq!(Authentication::from_request(false).unwrap_err().message, "Authorization key is required");
    assert!(is_authorized(true));
    assert!(!is_authorized(false));
}

#[test]
fn request_start_lines() {
    let info = RequestInfo {
        user_agent: "\"curl/8.0\"".to_string(),
        peer_addr: None,
        has_authorization: true,
        method: "POST".to_string(),
        path: "/api/v1/users".to_string(),
        query: "language=en".to_string(),
    };
    let lines = LoggingMiddleware::start_lines("abc", &info);
    assert_eq!(
        lines,
        vec![
            "----- Start Request [abc]",
            "\"user-agent\": \"curl/8.0\"",
            "\"from\": \"-\"",
            "\"authorization\": \"****************************\"",
            "\"path\": POST \"/api/v1/users\"",
            "\"query\": \"language=en\"",
        ]
    );
    let quiet = RequestInfo { peer_addr: Some("10.0.0.1:5000".to_string()), has_authorization: false, query: String::new(), ..info };
    let lines = LoggingMiddleware::start_lines("id", &quiet);
    assert_eq!(lines.len(), 4);
    assert_eq!(lines[2], "\"from\": \"10.0.0.1:5000\"");
}

#[test]
fn request_body_and_end_lines() {
    assert!(LoggingMiddleware::logs_body(3, "POST"));
    assert!(!LoggingMiddleware::logs_body(0, "POST"));
    assert!(!LoggingMiddleware::logs_body(3, "GET"));
    assert!(!LoggingMiddleware::logs_body(3, "HEAD"));
    assert_eq!(LoggingMiddleware::body_line("{\"a\":1}"), "\"body\": {\"a\":1}");
    assert_eq!(LoggingMiddleware::end_line("abc", 12), "------- End Request [abc] in `12ms`");
    assert_eq!(elapsed_ms(1_000_000, 251_999_999), 250);
    assert_eq!(elapsed_ms(0, 999_999), 0);
    assert_eq!(elapsed_ms(2_500_000, 0), -2);
    assert_eq!(LoggingMiddleware::body_line_of(b"{ \"b\": [1, 2], \"a\": true }", "POST").as_deref(), Some("\"body\": {\"a\":true,\"b\":[1,2]}"));
    assert_eq!(LoggingMiddleware::body_line_of(b"{\"a\":1}", "GET"), None);
    assert_eq!(LoggingMiddleware::body_line_of(b"", "POST"), None);
    assert_eq!(LoggingMiddleware::body_line_of(b"not json", "POST"), None);
}

#[test]
fn earlier_request_lines() {
    let h = RequestHeaders {
        accept: "\"*/*\"".to_string(),
        user_agent: "\"\"".to_string(),
        host: "\"localhost\"".to_string(),
        has_authorization: false,
        method: "GET".to_string(),
        path: "/".to_string(),
        query: String::new(),
    };
    assert_eq!(
        PreLogging::request_lines(&h),
        vec!["", "\"accept\": \"*/*\"", "\"user-agent\": \"\"", "\"host\": \"localhost\"", "\"path\": GET \"/\""]
    );
}

#[test]
fn health_body() {
    let h = get_health("0.1.0");
    assert_eq!(h.status, "Ok");
    assert_eq!(h.version, "Cargo Version: 0.1.0");
}

#[test]
fn logic_codes() {
    assert_eq!(StatusCode::SUCCESS.into(), 0);
    assert_eq!(Code::SUCCESS.to_u16(), 0);
}

#[test]
fn publication_status() {
    assert_eq!(Status::from_published_at(None), Status::Draft);
    assert_eq!(Status::from_published_at(Some(5)), Status::Published { at: 5 });
}

fn request(data: JsonValue) -> NatsRequest {
    NatsRequest { id: "1".to_string(), from: "svc".to_string(), data, send_time: 0 }
}

#[test]
fn registration_from_nats_payload() {
    let data = JsonValue::Object(vec![
        ("email".to_string(), JsonValue::Str("a@b.co".to_string())),
        ("password".to_string(), JsonValue::Str(String::new())),
    ]);
    let r = Register::from(request(data));
    assert_eq!(r.email.as_deref(), Some("a@b.co"));
    assert_eq!(r.password, None);
    let r = Register::from(request(JsonValue::Array(vec![])));
    assert_eq!((r.email, r.password), (None, None));
    let data = JsonValue::Object(vec![("email".to_string(), JsonValue::Number("5".to_string()))]);
    assert_eq!(Register::from(request(data)).email, None);
}

#[test]
fn json_member_lookup() {
    let doc = JsonValue::Object(vec![
        ("k".to_string(), JsonValue::Str("v".to_string())),
        ("n".to_string(), JsonValue::Null),
    ]);
    assert_eq!(doc.text_member("k").as_deref(), Some("v"));
    assert_eq!(doc.text_member("n"), None);
    assert_eq!(doc.text_member("missing"), None);
}

#[test]
fn nats_lines() {
    assert_eq!(users_create_topic(), "user.create");
    assert_eq!(subscription_report("t", Ok(()), true).as_deref(), Some("Consumer: `t` ready"));
    assert_eq!(subscription_report("t", Ok(()), false), None);
    assert_eq!(
        subscription_report("t", Err("refused".to_string()), false).as_deref(),
        Some("[NATS][FAIL] Create subscriber for topic:`t` fail | refused")
    );
    let (topic, queue) = consumer_subscription();
    assert_eq!((topic.as_str(), queue.as_str()), ("TEST1.abc.dd", "queue1.a.1"));
    assert_eq!(subscribe_line("t", "q", Ok(())), "Subscribe topic `t` queue `q` success");
    assert_eq!(
        subscribe_line("t", "q", Err("e".to_string())),
        "[NATS] Create queue subscriber for topic `t` queue `q` fail | e"
    );
    assert_eq!(message_line("t", "q", "M"), "[IN] topic `t` queue `q`: message: M");
}

#[test]
fn kafka_lines() {
    assert_eq!(send_message_line("users", "{}"), "Send Kafka Message to topic `users`: body `{}`");
    let s = producer_settings("localhost:9092", "5000");
    assert_eq!(s[0], ("bootstrap.servers".to_string(), "localhost:9092".to_string()));
    assert_eq!(s[1], ("message.timeout.ms".to_string(), "5000".to_string()));
}

#[test]
fn shared_connection_created_once() {
    let mut slot = ConnectionSlot::new();
    assert_eq!(slot.lookup(), Lookup::Connect);
    assert!(!slot.record(false));
    assert_eq!(slot.lookup(), Lookup::Connect);
    assert!(slot.record(true));
    assert_eq!(slot.lookup(), Lookup::UseStored);
    assert!(slot.record(false));
    assert!(slot.stored && slot.initialized);
}

#[test]
fn json_body_refusals() {
    assert_eq!(json_error_status(JsonPayloadFailure::ContentType), 415);
    assert_eq!(json_error_status(JsonPayloadFailure::DataMismatch), 422);
    assert_eq!(json_error_status(JsonPayloadFailure::Other), 400);
    assert_eq!(json_limit(), 4096);
    assert_eq!(cors_max_age(), 3600);
    assert_eq!(cors_allowed_headers(), vec!["authorization", "content-type", "accept"]);
}

#[test]
fn outcome_descriptions() {
    let r: ServerResponse<u8> = ServerResponse::UnprocessableEntity(JsonValue::Null);
    assert_eq!(r.describe("null"), "Unprocessable Entity: null");
    let r: ServerResponse<u8> = ServerResponse::Conflict;
    assert_eq!(r.describe("ignored"), "Resource Exists");
    let r: ServerResponse<u8> = ServerResponse::RequestTimeOut;
    assert_eq!(r.describe(""), "Request Time Out");
}

#[test]
fn nats_reply() {
    let req = NatsRequest { id: "r1".to_string(), from: "gateway".to_string(), data: JsonValue::Null, send_time: 5 };
    let r = resp_nats(req, "resp_create_user", JsonValue::Bool(true), 0, "Ok".to_string(), 1700000000);
    assert_eq!(r.id, "resp_create_user1700000000");
    assert_eq!(r.from, "User Service");
    assert_eq!(r.send_time, 1700000000);
    assert_eq!(r.status, 0);
    assert_eq!(r.status_des, "Ok");
    assert_eq!(r.request.as_ref().map(|q| q.id.as_str()), Some("r1"));
    assert!(matches!(r.data, JsonValue::Bool(true)));
    let r = resp_nats(
        NatsRequest { id: "r2".to_string(), from: "g".to_string(), data: JsonValue::Null, send_time: 0 },
        "create_user", JsonValue::Null, -1, "boom".to_string(), -3,
    );
    assert_eq!(r.id, "create_user-3");
    assert_eq!(r.status, -1);
}
