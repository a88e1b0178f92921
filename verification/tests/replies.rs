use sarufi::{ApiError, Bot, Response, SarufiAPI, SarufiApiError};
use serde_json::Value;

const BOT: &str = "{\"id\":1,\"confidence_threshold\":0.5,\"user_id\":77,\"name\":\"X\",\
\"description\":\"a bot\",\"intents\":{\"greets\":[\"hi\",\"hello\"],\"goodbye\":[\"bye\"]},\
\"flows\":{\"greets\":{\"message\":[\"Hi\"],\"next_state\":\"end\"}},\"model_name\":\"m.pkl\",\
\"evaluation_metrics\":null,\"industry\":\"Technology\",\"language\":\"en\",\
\"visible_on_community\":true,\"webhook_url\":\"https://example.com/webhook\",\
\"webhook_trigger_intents\":[\"greets\"],\"created_at\":\"2023-05-01\",\
\"updated_at\":\"2023-05-02\",\"something_new\":[1,2,3]}";

fn client() -> SarufiAPI {
    SarufiAPI::new("secret").unwrap()
}

fn reply(status: u16, body: &str) -> Response {
    Response { status, body: body.to_string() }
}

fn generic(message: &str) -> ApiError {
    ApiError::GenericError(message.to_string())
}

fn without(member: &str) -> String {
    let mut value: Value = serde_json::from_str(BOT).unwrap();
    value.as_object_mut().unwrap().remove(member);
    value.to_string()
}

fn with(member: &str, replacement: &str) -> String {
    let mut value: Value = serde_json::from_str(BOT).unwrap();
    let replacement: Value = serde_json::from_str(replacement).unwrap();
    value.as_object_mut().unwrap().insert(member.to_string(), replacement);
    value.to_string()
}

fn read(body: &str) -> Result<Bot, ApiError> {
    client().get_bot(&reply(200, body))
}

#[test]
fn a_success_reply_carries_the_bot() {
    let bot = read(BOT).unwrap();
    assert_eq!(bot.name, "X");
    assert_eq!(bot.id, 1);
    assert_eq!(bot.user_id, 77);
    assert_eq!(bot.description, "a bot");
    assert_eq!(bot.model_name, "m.pkl");
    assert_eq!(bot.industry, "Technology");
    assert_eq!(bot.language, "en");
    assert!(bot.visible_on_community);
    assert_eq!(bot.webhook_url, "https://example.com/webhook");
    assert_eq!(bot.webhook_trigger_intents, vec!["greets".to_string()]);
    assert_eq!(bot.created_at, "2023-05-01");
    assert_eq!(bot.updated_at, "2023-05-02");
    assert_eq!(bot.confidence_threshold.unwrap().as_json().as_f64(), Some(0.5));
    assert!(bot.evaluation_metrics.is_none());
}

#[test]
fn intents_and_flows_are_read_by_name() {
    let bot = read(BOT).unwrap();
    let mut intents = bot.intents.clone();
    intents.sort();
    assert_eq!(
        intents,
        vec![
            ("goodbye".to_string(), vec!["bye".to_string()]),
            ("greets".to_string(), vec!["hi".to_string(), "hello".to_string()]),
        ]
    );
    assert_eq!(bot.flows.len(), 1);
    assert_eq!(bot.flows["greets"]["next_state"], Value::String("end".to_string()));
    assert_eq!(bot.flows["greets"]["message"][0], Value::String("Hi".to_string()));
}

#[test]
fn every_success_status_counts_as_success() {
    for status in [200, 201, 204, 299] {
        assert_eq!(client().get_bot(&reply(status, BOT)).unwrap().name, "X");
    }
    for status in [100, 199, 300, 302, 400, 404, 500, 599, 0, u16::MAX] {
        assert!(client().get_bot(&reply(status, BOT)).is_err());
    }
}

#[test]
fn an_error_reply_fails_every_operation_with_its_message() {
    let api = client();
    for status in [400, 401, 404, 422, 500, 503] {
        let refused = reply(status, "{\"error\":\"not found\"}");
        assert_eq!(api.get_bot(&refused), Err(generic("not found")));
        assert_eq!(api.get_all_bots(&refused), Err(generic("not found")));
        assert_eq!(api.create_bot(&refused), Err(generic("not found")));
        assert_eq!(api.create_bot_from_file(&refused), Err(generic("not found")));
        assert_eq!(api.update_bot(&refused), Err(generic("not found")));
        assert_eq!(api.delete_bot(&refused), Err(generic("not found")));
        assert_eq!(api._fetch_response(&refused), Err(generic("not found")));
        assert_eq!(api.chat(&refused), Err(generic("not found")));
        assert_eq!(api.chat_status(&refused), Err(generic("not found")));
        assert_eq!(api.update_conversation_state(&refused), Err(generic("not found")));
    }
}

#[test]
fn an_error_reply_may_hold_more_than_the_message() {
    let refused = reply(404, "{\"detail\":7,\"error\":\"gone\"}");
    assert_eq!(client().get_bot(&refused), Err(generic("gone")));
}

#[test]
fn a_malformed_error_reply_is_a_failure_of_its_own() {
    let api = client();
    assert_eq!(api.get_bot(&reply(500, "{}")), Err(generic("missing field `error`")));
    assert_eq!(
        api.get_bot(&reply(500, "{\"error\":5}")),
        Err(generic("invalid type for field `error`"))
    );
    assert_eq!(api.delete_bot(&reply(500, "[]")), Err(generic("expected a JSON object")));
    let shown = serde_json::from_str::<Value>("<html>").unwrap_err().to_string();
    assert_eq!(api.delete_bot(&reply(502, "<html>")), Err(generic(&shown)));
    assert_eq!(api.chat_status(&reply(502, "<html>")), Err(generic(&shown)));
}

#[test]
fn delete_succeeds_whatever_the_body_holds() {
    let api = client();
    for body in ["", "{}", "not json", "{\"error\":\"not found\"}", BOT, "null"] {
        assert_eq!(api.delete_bot(&reply(200, body)), Ok(()));
        assert_eq!(api.delete_bot(&reply(204, body)), Ok(()));
    }
}

#[test]
fn a_success_reply_that_is_no_json_fails() {
    let shown = serde_json::from_str::<Value>("{\"id\":1").unwrap_err().to_string();
    assert_eq!(read("{\"id\":1"), Err(generic(&shown)));
    assert!(matches!(read(""), Err(ApiError::GenericError(_))));
    assert!(matches!(client().get_all_bots(&reply(200, "oops")), Err(ApiError::GenericError(_))));
    assert!(matches!(client()._fetch_response(&reply(200, "oops")), Err(ApiError::GenericError(_))));
}

#[test]
fn a_success_reply_that_is_no_object_fails() {
    for body in ["[]", "1", "\"X\"", "null", "true"] {
        assert_eq!(read(body), Err(generic("expected a JSON object")));
    }
}

#[test]
fn a_missing_field_is_named() {
    for field in [
        "id",
        "user_id",
        "name",
        "description",
        "intents",
        "flows",
        "model_name",
        "industry",
        "language",
        "visible_on_community",
        "webhook_url",
        "webhook_trigger_intents",
        "created_at",
        "updated_at",
    ] {
        assert_eq!(read(&without(field)), Err(generic(&format!("missing field `{}`", field))));
    }
}

#[test]
fn the_first_missing_field_is_the_one_named() {
    let mut value: Value = serde_json::from_str(BOT).unwrap();
    value.as_object_mut().unwrap().remove("updated_at");
    value.as_object_mut().unwrap().remove("name");
    value.as_object_mut().unwrap().remove("language");
    assert_eq!(read(&value.to_string()), Err(generic("missing field `name`")));
    assert_eq!(read("{}"), Err(generic("missing field `id`")));
}

#[test]
fn optional_fields_may_be_left_out_or_null() {
    for body in [
        without("confidence_threshold"),
        with("confidence_threshold", "null"),
        without("evaluation_metrics"),
        with("evaluation_metrics", "null"),
    ] {
        assert_eq!(read(&body).unwrap().name, "X");
    }
    assert!(read(&without("confidence_threshold")).unwrap().confidence_threshold.is_none());
    assert!(read(&with("confidence_threshold", "null")).unwrap().confidence_threshold.is_none());
}

#[test]
fn a_field_of_the_wrong_kind_is_named() {
    let cases = [
        ("id", "\"1\""),
        ("id", "-1"),
        ("id", "1.5"),
        ("id", "null"),
        ("confidence_threshold", "\"high\""),
        ("user_id", "true"),
        ("name", "null"),
        ("name", "7"),
        ("description", "[]"),
        ("intents", "[]"),
        ("intents", "{\"greets\":\"hi\"}"),
        ("intents", "{\"greets\":[\"hi\",1]}"),
        ("flows", "[]"),
        ("flows", "null"),
        ("model_name", "{}"),
        ("evaluation_metrics", "7"),
        ("industry", "false"),
        ("language", "0"),
        ("visible_on_community", "\"yes\""),
        ("visible_on_community", "1"),
        ("webhook_url", "null"),
        ("webhook_trigger_intents", "\"greets\""),
        ("webhook_trigger_intents", "[\"greets\",null]"),
        ("created_at", "1"),
        ("updated_at", "null"),
    ];
    for (field, replacement) in cases {
        assert_eq!(
            read(&with(field, replacement)),
            Err(generic(&format!("invalid type for field `{}`", field))),
            "{} = {}",
            field,
            replacement
        );
    }
}

#[test]
fn numbers_keep_their_exact_value() {
    let bot = read(&with("id", "4294967295")).unwrap();
    assert_eq!(bot.id, 4294967295);
    let bot = read(&with("user_id", "18446744073709551615")).unwrap();
    assert_eq!(bot.user_id, u64::MAX);
    assert_eq!(
        read(&with("user_id", "18446744073709551616")),
        Err(generic("invalid type for field `user_id`"))
    );
    let bot = read(&with("confidence_threshold", "1")).unwrap();
    assert_eq!(bot.confidence_threshold.unwrap().as_json(), &Value::from(1u64));
    let bot = read(&with("confidence_threshold", "-0.25")).unwrap();
    assert_eq!(bot.confidence_threshold.unwrap().as_json().as_f64(), Some(-0.25));
}

#[test]
fn the_list_of_bots_is_read_in_order() {
    let second = with("name", "\"Y\"");
    let body = format!("[{},{}]", BOT, second);
    let bots = client().get_all_bots(&reply(200, &body)).unwrap();
    assert_eq!(bots.len(), 2);
    assert_eq!(bots[0].name, "X");
    assert_eq!(bots[1].name, "Y");
    assert_eq!(client().get_all_bots(&reply(200, "[]")), Ok(vec![]));
}

#[test]
fn the_first_bad_bot_fails_the_list() {
    let body = format!("[{},{},{}]", BOT, without("language"), without("name"));
    assert_eq!(
        client().get_all_bots(&reply(200, &body)),
        Err(generic("missing field `language`"))
    );
    let body = format!("[{},7]", BOT);
    assert_eq!(client().get_all_bots(&reply(200, &body)), Err(generic("expected a JSON object")));
    assert_eq!(client().get_all_bots(&reply(200, BOT)), Err(generic("expected a JSON array")));
    assert_eq!(client().get_all_bots(&reply(200, "null")), Err(generic("expected a JSON array")));
}

#[test]
fn the_first_message_is_handed_back_as_json() {
    let api = client();
    assert_eq!(
        api._fetch_response(&reply(200, "{\"message\":[\"Hello there\",\"more\"]}")),
        Ok("\"Hello there\"".to_string())
    );
    assert_eq!(
        api.chat(&reply(200, "{\"message\": [ {\"b\": 1, \"a\": [true, null]} ], \"x\": 1}")),
        Ok("{\"a\":[true,null],\"b\":1}".to_string())
    );
    assert_eq!(api.chat(&reply(200, "{\"message\":[12.50]}")), Ok("12.5".to_string()));
}

#[test]
fn no_first_message_reads_as_null() {
    let api = client();
    for body in [
        "{}",
        "{\"message\":[]}",
        "{\"message\":\"Hello\"}",
        "{\"message\":{\"0\":\"Hello\"}}",
        "{\"message\":null}",
        "[\"Hello\"]",
        "7",
        "{\"message\":[null,1]}",
    ] {
        assert_eq!(api._fetch_response(&reply(200, body)), Ok("null".to_string()), "{}", body);
    }
}

#[test]
fn status_replies_are_handed_back_as_they_are() {
    let api = client();
    for body in ["{\"state\": \"end\"}", "", "not json", "  [1,\n2]  "] {
        assert_eq!(api.chat_status(&reply(200, body)), Ok(body.to_string()));
        assert_eq!(api.update_conversation_state(&reply(201, body)), Ok(body.to_string()));
    }
}

#[test]
fn create_and_update_replies_carry_the_bot() {
    let api = client();
    assert_eq!(api.create_bot(&reply(201, BOT)).unwrap().name, "X");
    assert_eq!(api.create_bot_from_file(&reply(200, BOT)).unwrap().id, 1);
    assert_eq!(api.update_bot(&reply(200, BOT)).unwrap().user_id, 77);
    assert_eq!(api.update_bot(&reply(200, "{}")), Err(generic("missing field `id`")));
}

#[test]
fn what_was_sent_is_read_back_from_the_echo() {
    let api = client();
    let intents = vec![("greets".to_string(), vec!["hi".to_string(), "hello".to_string()])];
    let triggers = vec!["greets".to_string()];
    let request = api.update_bot_request(
        1,
        "Renamed",
        Some("another bot"),
        Some("Retail"),
        None,
        Some(intents.clone()),
        Some("https://example.com/hook"),
        Some(triggers.clone()),
        Some(false),
    );
    let mut echoed: Value = serde_json::from_str(BOT).unwrap();
    for (key, value) in request.body.unwrap().as_object().unwrap() {
        echoed.as_object_mut().unwrap().insert(key.clone(), value.clone());
    }
    let bot = api.update_bot(&reply(200, &echoed.to_string())).unwrap();
    assert_eq!(bot.name, "Renamed");
    assert_eq!(bot.description, "another bot");
    assert_eq!(bot.industry, "Retail");
    assert_eq!(bot.intents, intents);
    assert_eq!(bot.webhook_url, "https://example.com/hook");
    assert_eq!(bot.webhook_trigger_intents, triggers);
    assert!(!bot.visible_on_community);
    assert_eq!(bot.id, 1);
}

#[test]
fn the_envelope_hands_out_its_message() {
    let document: Value = serde_json::from_str("{\"error\":\"not found\"}").unwrap();
    let envelope = SarufiApiError::from_json(&document).unwrap();
    assert_eq!(envelope.message(), "not found");
    let document: Value = serde_json::from_str("{\"error\":\"\"}").unwrap();
    assert_eq!(SarufiApiError::from_json(&document).unwrap().message(), "");
    let document: Value = serde_json::from_str("{\"message\":\"not found\"}").unwrap();
    assert_eq!(SarufiApiError::from_json(&document), Err(generic("missing field `error`")));
}

#[test]
fn errors_are_shown_as_text() {
    assert_eq!(ApiError::InvalidApiKey().to_text(), "Invalid api_key");
    assert_eq!(generic("not found").to_text(), "Error: not found");
    assert_eq!(generic("").to_text(), "Error: ");
    assert_eq!(generic("not found").clone(), generic("not found"));
}

#[test]
fn outside_failures_become_generic_errors() {
    let parse = serde_json::from_str::<Value>("{").unwrap_err();
    let shown = parse.to_string();
    assert_eq!(ApiError::from(parse), generic(&shown));
    let input = std::io::Error::new(std::io::ErrorKind::PermissionDenied, "no entry");
    assert_eq!(ApiError::from(input), generic("no entry"));
}
