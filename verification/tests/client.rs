use sarufi::utils::decimal_text;
use sarufi::{api_url, validate_keys, ApiError, Method, Request, Response, SarufiAPI};
use serde_json::Value;

fn client() -> SarufiAPI {
    SarufiAPI::new("secret").unwrap()
}

fn text(value: &str) -> Value {
    Value::String(value.to_string())
}

fn object(members: Vec<(&str, Value)>) -> Value {
    let mut map = serde_json::Map::new();
    for (key, value) in members {
        map.insert(key.to_string(), value);
    }
    Value::Object(map)
}

fn expected_headers() -> Vec<(String, String)> {
    vec![
        ("Authorization".to_string(), "Bearer secret".to_string()),
        ("Content-Type".to_string(), "application/json".to_string()),
    ]
}

fn assert_request(request: &Request, method: Method, url: &str, body: Option<Value>) {
    assert_eq!(request.method, method);
    assert_eq!(request.url, url);
    assert_eq!(request.headers, expected_headers());
    assert_eq!(request.body, body);
}

#[test]
fn empty_key_is_refused() {
    assert_eq!(SarufiAPI::new("").err(), Some(ApiError::InvalidApiKey()));
    assert_eq!(validate_keys(""), Err(ApiError::InvalidApiKey()));
}

#[test]
fn any_other_key_is_accepted() {
    assert!(SarufiAPI::new("k").is_ok());
    assert!(SarufiAPI::new(" ").is_ok());
    assert!(SarufiAPI::new("a key\nwith a line break").is_ok());
    assert_eq!(validate_keys("k"), Ok(()));
}

#[test]
fn headers_carry_the_key() {
    assert_eq!(client().headers(), expected_headers());
    assert_eq!(
        SarufiAPI::new("abc 123").unwrap().headers()[0],
        ("Authorization".to_string(), "Bearer abc 123".to_string())
    );
}

#[test]
fn urls_start_at_the_service() {
    assert_eq!(api_url("/chatbots"), "https://developers.sarufi.io/chatbots");
    assert_eq!(api_url(""), "https://developers.sarufi.io");
}

#[test]
fn numbers_are_written_in_decimal() {
    assert_eq!(decimal_text(0), "0");
    assert_eq!(decimal_text(7), "7");
    assert_eq!(decimal_text(10), "10");
    assert_eq!(decimal_text(1205), "1205");
    assert_eq!(decimal_text(usize::MAX), usize::MAX.to_string());
}

#[test]
fn get_bot_request_names_the_bot() {
    assert_request(
        &client().get_bot_request(1205),
        Method::Get,
        "https://developers.sarufi.io/chatbot/1205",
        None,
    );
    assert_eq!(client().get_bot_request(0).url, "https://developers.sarufi.io/chatbot/0");
}

#[test]
fn get_all_bots_request_lists() {
    assert_request(
        &client().get_all_bots_request(),
        Method::Get,
        "https://developers.sarufi.io/chatbots",
        None,
    );
}

#[test]
fn delete_bot_request_names_the_bot() {
    assert_request(
        &client().delete_bot_request(42),
        Method::Delete,
        "https://developers.sarufi.io/chatbot/42",
        None,
    );
}

#[test]
fn create_bot_with_a_name_alone_sends_the_name_alone() {
    let request = client().create_bot_request("X", None, None, None, None, None, None, None);
    assert_request(
        &request,
        Method::Post,
        "https://developers.sarufi.io/chatbot",
        Some(object(vec![("name", text("X"))])),
    );
    let body = request.body.unwrap();
    assert_eq!(body.as_object().unwrap().len(), 1);
    assert_eq!(body.to_string(), "{\"name\":\"X\"}");
}

#[test]
fn create_bot_sends_every_field_that_was_given() {
    let mut flow = serde_json::Map::new();
    flow.insert("greets".to_string(), object(vec![("next_state", text("end"))]));
    let intents = vec![
        ("greets".to_string(), vec!["hi".to_string(), "hello".to_string()]),
        ("goodbye".to_string(), vec![]),
    ];
    let request = client().create_bot_request(
        "X",
        Some("a bot"),
        Some("Technology"),
        Some(flow.clone()),
        Some(intents),
        Some("https://example.com/webhook"),
        Some(vec!["greets".to_string()]),
        Some(false),
    );
    let expected = object(vec![
        ("name", text("X")),
        ("description", text("a bot")),
        ("industry", text("Technology")),
        ("flow", Value::Object(flow)),
        (
            "intents",
            object(vec![
                ("greets", Value::Array(vec![text("hi"), text("hello")])),
                ("goodbye", Value::Array(vec![])),
            ]),
        ),
        ("webhook_url", text("https://example.com/webhook")),
        ("webhook_trigger_intents", Value::Array(vec![text("greets")])),
        ("visible_on_community", Value::Bool(false)),
    ]);
    assert_request(&request, Method::Post, "https://developers.sarufi.io/chatbot", Some(expected));
}

#[test]
fn create_bot_never_sends_null() {
    let request = client().create_bot_request(
        "X",
        None,
        Some("Technology"),
        None,
        None,
        None,
        None,
        Some(true),
    );
    let body = request.body.unwrap();
    let members = body.as_object().unwrap();
    let mut names: Vec<&str> = members.keys().map(|key| key.as_str()).collect();
    names.sort();
    assert_eq!(names, vec!["industry", "name", "visible_on_community"]);
    assert!(members.values().all(|value| !value.is_null()));
}

#[test]
fn a_later_intent_of_the_same_name_counts() {
    let intents = vec![
        ("greets".to_string(), vec!["hi".to_string()]),
        ("greets".to_string(), vec!["hello".to_string()]),
    ];
    let request =
        client().create_bot_request("X", None, None, None, Some(intents), None, None, None);
    assert_eq!(
        request.body,
        Some(object(vec![
            ("name", text("X")),
            ("intents", object(vec![("greets", Value::Array(vec![text("hello")]))])),
        ]))
    );
}

#[test]
fn update_bot_request_puts_the_payload() {
    let request = client().update_bot_request(
        1112,
        "My Other Rusty Chatbot",
        Some("A rusty chatbot created using Sarufi API"),
        None,
        None,
        None,
        None,
        None,
        None,
    );
    assert_request(
        &request,
        Method::Put,
        "https://developers.sarufi.io/chatbot/1112",
        Some(object(vec![
            ("name", text("My Other Rusty Chatbot")),
            ("description", text("A rusty chatbot created using Sarufi API")),
        ])),
    );
}

#[test]
fn messages_go_to_the_conversation() {
    let request = client()._fetch_request(1145, "123456789", "Hello", "text", "other");
    assert_request(
        &request,
        Method::Post,
        "https://developers.sarufi.io/conversation",
        Some(object(vec![
            ("bot_id", Value::from(1145u64)),
            ("chat_id", text("123456789")),
            ("message", text("Hello")),
            ("message_type", text("text")),
            ("channel", text("other")),
        ])),
    );
}

#[test]
fn whatsapp_messages_have_their_own_endpoint() {
    let request = client()._fetch_request(1, "c", "m", "text", "whatsapp");
    assert_eq!(request.url, "https://developers.sarufi.io/conversation/whatsapp");
    assert_eq!(request.method, Method::Post);
    let request = client()._fetch_request(1, "c", "m", "text", "WhatsApp");
    assert_eq!(request.url, "https://developers.sarufi.io/conversation");
}

#[test]
fn chat_request_greets_under_a_fresh_number() {
    let first = client().chat_request(1145);
    let second = client().chat_request(1145);
    assert_eq!(first.method, Method::Post);
    assert_eq!(first.url, "https://developers.sarufi.io/conversation");
    let body = first.body.unwrap();
    assert_eq!(body["bot_id"], Value::from(1145u64));
    assert_eq!(body["message"], text("Hello"));
    assert_eq!(body["message_type"], text("text"));
    assert_eq!(body["channel"], text("general"));
    assert_eq!(body.as_object().unwrap().len(), 5);
    let chat_id = body["chat_id"].as_str().unwrap().to_string();
    assert_eq!(chat_id.chars().count(), 36);
    assert_ne!(Some(chat_id.as_str()), second.body.unwrap()["chat_id"].as_str());
}

#[test]
fn chat_status_request_names_the_conversation() {
    assert_request(
        &client().chat_status_request(1145, "123456789"),
        Method::Post,
        "https://developers.sarufi.io/allchannels/status",
        Some(object(vec![("bot_id", Value::from(1145u64)), ("chat_id", text("123456789"))])),
    );
}

#[test]
fn update_conversation_state_request_names_the_state() {
    assert_request(
        &client().update_conversation_state_request(1145, "123456789", "end"),
        Method::Post,
        "https://developers.sarufi.io/conversation-state",
        Some(object(vec![
            ("bot_id", Value::from(1145u64)),
            ("chat_id", text("123456789")),
            ("next_state", text("end")),
        ])),
    );
}

#[test]
fn a_file_with_an_object_becomes_the_body() {
    let request = client()
        .create_bot_from_file_request("{\"name\": \"From a file\", \"extra\": [1, 2.5, null]}")
        .unwrap();
    let expected: Value =
        serde_json::from_str("{\"extra\":[1,2.5,null],\"name\":\"From a file\"}").unwrap();
    assert_request(&request, Method::Post, "https://developers.sarufi.io/chatbot", Some(expected));
}

#[test]
fn a_file_without_an_object_is_invalid() {
    for contents in ["\"not json\"", "[1, 2]", "12", "null", "true"] {
        assert_eq!(
            client().create_bot_from_file_request(contents).err(),
            Some(ApiError::GenericError("Invalid JSON".to_string()))
        );
    }
}

#[test]
fn a_file_without_json_is_a_parse_failure() {
    let parse = match client().create_bot_from_file_request("not json") {
        Err(ApiError::GenericError(message)) => message,
        other => panic!("unexpected outcome: {:?}", other.map(|request| request.url)),
    };
    let expected = serde_json::from_str::<Value>("not json").unwrap_err().to_string();
    assert_eq!(parse, expected);
    assert!(matches!(
        client().create_bot_from_file_request(""),
        Err(ApiError::GenericError(_))
    ));
}

#[test]
fn a_missing_file_is_an_input_failure() {
    let missing = std::io::Error::from(std::io::ErrorKind::NotFound);
    let shown = missing.to_string();
    let input = match ApiError::from(missing) {
        ApiError::GenericError(message) => message,
        other => panic!("unexpected error: {:?}", other),
    };
    assert_eq!(input, shown);
    let parse = match client().create_bot_from_file_request("not json") {
        Err(ApiError::GenericError(message)) => message,
        other => panic!("unexpected outcome: {:?}", other.map(|request| request.url)),
    };
    assert_ne!(input, parse);
}

#[test]
fn replies_need_no_particular_client() {
    let reply = Response { status: 204, body: String::new() };
    assert_eq!(SarufiAPI::new("one").unwrap().delete_bot(&reply), Ok(()));
    assert_eq!(SarufiAPI::new("two").unwrap().delete_bot(&reply), Ok(()));
}
