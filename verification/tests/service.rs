use sarufi::{ApiError, Method, Request, Response, SarufiAPI};
use serde_json::Value;

fn text(value: &str) -> Value {
    Value::String(value.to_string())
}

/// A stand-in for the service: it answers a request the way the service
/// would, from a chatbot that it makes up on the spot.
fn serve(request: &Request) -> Response {
    let authorized = request
        .headers
        .iter()
        .any(|field| field.0 == "Authorization" && field.1.starts_with("Bearer ") && field.1.len() > 7);
    if !authorized {
        return Response { status: 401, body: "{\"error\":\"unauthorized\"}".to_string() };
    }
    let path = request.url.strip_prefix("https://developers.sarufi.io").unwrap_or("");
    match (request.method, path) {
        (Method::Get, "/chatbots") => {
            let bots = Value::Array(vec![stored(1205, None), stored(1112, None)]);
            Response { status: 200, body: bots.to_string() }
        }
        (Method::Post, "/chatbot") => {
            Response { status: 201, body: stored(1300, request.body.as_ref()).to_string() }
        }
        (Method::Post, "/conversation") | (Method::Post, "/conversation/whatsapp") => {
            let body = request.body.as_ref().unwrap();
            let answer = format!("You said {}", body["message"].as_str().unwrap());
            let mut reply = serde_json::Map::new();
            reply.insert("message".to_string(), Value::Array(vec![text(&answer)]));
            reply.insert("chat_id".to_string(), body["chat_id"].clone());
            Response { status: 200, body: Value::Object(reply).to_string() }
        }
        (method, path) if path.starts_with("/chatbot/") => {
            match path["/chatbot/".len()..].parse::<u64>() {
                Ok(id) if id == 1205 || id == 1112 => match method {
                    Method::Get => Response { status: 200, body: stored(id, None).to_string() },
                    Method::Put => Response {
                        status: 200,
                        body: stored(id, request.body.as_ref()).to_string(),
                    },
                    Method::Delete => Response { status: 200, body: String::new() },
                    Method::Post => not_found(),
                },
                _ => not_found(),
            }
        }
        _ => not_found(),
    }
}

fn not_found() -> Response {
    Response { status: 404, body: "{\"error\":\"not found\"}".to_string() }
}

fn stored(id: u64, sent: Option<&Value>) -> Value {
    let mut bot = serde_json::Map::new();
    bot.insert("id".to_string(), Value::from(id));
    bot.insert("confidence_threshold".to_string(), Value::Null);
    bot.insert("user_id".to_string(), Value::from(77u64));
    bot.insert("name".to_string(), text("My Rust Chatbot"));
    bot.insert("description".to_string(), text("PUT DESCRIPTION HERE"));
    bot.insert("intents".to_string(), Value::Object(serde_json::Map::new()));
    bot.insert("flows".to_string(), Value::Object(serde_json::Map::new()));
    bot.insert("model_name".to_string(), text("models/bot.pkl"));
    bot.insert("industry".to_string(), text("general"));
    bot.insert("language".to_string(), text("en"));
    bot.insert("visible_on_community".to_string(), Value::Bool(false));
    bot.insert("webhook_url".to_string(), text(""));
    bot.insert("webhook_trigger_intents".to_string(), Value::Array(vec![]));
    bot.insert("created_at".to_string(), text("2023-05-01T08:00:00"));
    bot.insert("updated_at".to_string(), text("2023-05-01T08:00:00"));
    if let Some(Value::Object(members)) = sent {
        for (key, value) in members {
            let key = if key == "flow" { "flows".to_string() } else { key.clone() };
            bot.insert(key, value.clone());
        }
    }
    Value::Object(bot)
}

#[test]
fn test_get_bot() {
    let api = SarufiAPI::new("secret").unwrap();
    let bot = api.get_bot(&serve(&api.get_bot_request(1205))).unwrap();

    println!("Name: {:?}", bot.name);
    println!("ID: {:?}", bot.id);
    println!("Description: {:?}", bot.description);
    println!("Industry: {:?}", bot.industry);

    assert_eq!(bot.id, 1205);
    assert_eq!(bot.name, "My Rust Chatbot");
    assert_eq!(bot.description, "PUT DESCRIPTION HERE");
    assert_eq!(bot.industry, "general");
}

#[test]
fn test_get_all_bot() {
    let api = SarufiAPI::new("secret").unwrap();
    let bots = api.get_all_bots(&serve(&api.get_all_bots_request())).unwrap();

    println!("Result: {:?}", bots.len());

    assert_eq!(bots.len(), 2);
    assert_eq!(bots[0].id, 1205);
    assert_eq!(bots[1].id, 1112);
}

#[test]
fn test_create_bot() -> Result<(), ApiError> {
    let api = SarufiAPI::new("secret").unwrap();

    let name = "My Rusty Chatbot";
    let description = Some("A rusty chatbot created using Sarufi API");
    let industry = Some("Technology");
    let flow: Option<serde_json::Map<String, Value>> = None;
    let intents: Option<Vec<(String, Vec<String>)>> = None;
    let webhook_url = Some("https://example.com/webhook");
    let webhook_trigger_intents: Option<Vec<String>> = None;
    let visible_on_community = Some(true);

    let request = api.create_bot_request(
        name,
        description,
        industry,
        flow,
        intents,
        webhook_url,
        webhook_trigger_intents,
        visible_on_community,
    );
    let bot = api.create_bot(&serve(&request))?;

    println!("Result: {:?}", bot);
    println!("ID: {:?}", bot.id);

    assert_eq!(bot.name, name);
    assert_eq!(bot.description, description.unwrap());
    assert_eq!(bot.industry, industry.unwrap());

    Ok(())
}

#[test]
fn test_update_bot() {
    let api = SarufiAPI::new("secret").unwrap();

    let id = 1112;

    let prev_bot = api.get_bot(&serve(&api.get_bot_request(id))).unwrap();

    let name = "My Other Rusty Chatbot";
    let description = Some("A rusty chatbot created using Sarufi API");
    let industry = Some("Technology");
    let flow: Option<serde_json::Map<String, Value>> = None;
    let intents: Option<Vec<(String, Vec<String>)>> = None;
    let webhook_url = Some("https://example.com/webhook");
    let webhook_trigger_intents: Option<Vec<String>> = None;
    let visible_on_community = Some(true);

    let request = api.update_bot_request(
        id,
        name,
        description,
        industry,
        flow,
        intents,
        webhook_url,
        webhook_trigger_intents,
        visible_on_community,
    );
    let bot = api.update_bot(&serve(&request)).unwrap();

    println!("Result: {:?}", bot.id);

    assert_eq!(bot.name, name);
    assert_eq!(bot.description, description.unwrap());
    assert_eq!(bot.industry, industry.unwrap());
    assert_eq!(bot.id, prev_bot.id);
    assert_ne!(bot.name, prev_bot.name);
}

#[test]
fn test_fetch() {
    let api = SarufiAPI::new("secret").unwrap();

    let bot_id = 1145;
    let chat_id = "123456789";
    let message = "Hello";
    let message_type = "text";
    let channel = "other";

    let request = api._fetch_request(bot_id, chat_id, message, message_type, channel);
    let response = api._fetch_response(&serve(&request)).unwrap();
    println!("Result: {:?}", response);

    assert_eq!(response, "\"You said Hello\"");
}

#[test]
fn test_chat() {
    let api = SarufiAPI::new("secret").unwrap();

    let bot_id = 1145;
    let response = api.chat(&serve(&api.chat_request(bot_id))).unwrap();
    println!("Result: {:?}", response.as_str());

    assert_eq!(response, "\"You said Hello\"");
}

#[test]
fn a_flow_comes_back_under_its_own_name() {
    let api = SarufiAPI::new("secret").unwrap();
    let mut state = serde_json::Map::new();
    state.insert("message".to_string(), Value::Array(vec![text("Hi")]));
    state.insert("next_state".to_string(), text("end"));
    let mut flow = serde_json::Map::new();
    flow.insert("greets".to_string(), Value::Object(state));
    let request =
        api.create_bot_request("Flowing", None, None, Some(flow.clone()), None, None, None, None);
    let bot = api.create_bot(&serve(&request)).unwrap();
    assert_eq!(bot.flows, flow);
    assert_eq!(bot.name, "Flowing");
}

#[test]
fn an_unknown_bot_is_not_found() {
    let api = SarufiAPI::new("secret").unwrap();
    let missing = ApiError::GenericError("not found".to_string());
    assert_eq!(api.get_bot(&serve(&api.get_bot_request(1))), Err(missing.clone()));
    assert_eq!(api.delete_bot(&serve(&api.delete_bot_request(1))), Err(missing));
    assert_eq!(api.delete_bot(&serve(&api.delete_bot_request(1205))), Ok(()));
}
