//! The JSON bodies of the requests that carry one.
//!
//! A body holds a member for every field the caller supplied and for no
//! other: a field that was left out is not sent as `null`, it is not sent.

use crate::bot::intent_entries;
use crate::entries::entries_map;
use crate::fields::{string_views, Members};
use crate::json::{
    json_array, json_bool, json_model, json_models, json_object, json_string, json_unsigned,
    object_members, Json, JsonNumber,
};
use serde_json::Value;
use vstd::prelude::*;

verus! {

/// `members` with `value` under `key`, where there is a value.
pub open spec fn with_member(members: Members, key: Seq<char>, value: Option<Json>) -> Members {
    match value {
        Some(value) => members.insert(key, value),
        None => members,
    }
}

/// An optional text as a document.
pub open spec fn text_json(text: Option<Seq<char>>) -> Option<Json> {
    match text {
        Some(text) => Some(Json::String(text)),
        None => None,
    }
}

/// A list of texts as a document.
pub open spec fn text_list_json(texts: Seq<Seq<char>>) -> Json {
    Json::Array(texts.map_values(|text: Seq<char>| Json::String(text)))
}

/// Intents as a document: an object that holds the phrase list of each
/// intent under the intent's name.
pub open spec fn intents_json(intents: Map<Seq<char>, Seq<Seq<char>>>) -> Json {
    Json::Object(intents.map_values(|phrases: Seq<Seq<char>>| text_list_json(phrases)))
}

/// The body that creates or replaces a chatbot.
pub open spec fn bot_members(
    name: Seq<char>,
    description: Option<Seq<char>>,
    industry: Option<Seq<char>>,
    flow: Option<Members>,
    intents: Option<Map<Seq<char>, Seq<Seq<char>>>>,
    webhook_url: Option<Seq<char>>,
    webhook_trigger_intents: Option<Seq<Seq<char>>>,
    visible_on_community: Option<bool>,
) -> Members {
    let named = Map::<Seq<char>, Json>::empty().insert("name"@, Json::String(name));
    let described = with_member(named, "description"@, text_json(description));
    let placed = with_member(described, "industry"@, text_json(industry));
    let flowing = with_member(
        placed,
        "flow"@,
        match flow {
            Some(flow) => Some(Json::Object(flow)),
            None => None,
        },
    );
    let meaning = with_member(
        flowing,
        "intents"@,
        match intents {
            Some(intents) => Some(intents_json(intents)),
            None => None,
        },
    );
    let hooked = with_member(meaning, "webhook_url"@, text_json(webhook_url));
    let triggered = with_member(
        hooked,
        "webhook_trigger_intents"@,
        match webhook_trigger_intents {
            Some(names) => Some(text_list_json(names)),
            None => None,
        },
    );
    with_member(
        triggered,
        "visible_on_community"@,
        match visible_on_community {
            Some(flag) => Some(Json::Bool(flag)),
            None => None,
        },
    )
}

/// A whole number as a document.
pub open spec fn unsigned_json(n: nat) -> Json {
    Json::Number(JsonNumber::Integer(n as int))
}

/// The body that sends a message into a conversation.
pub open spec fn message_members(
    bot_id: nat,
    chat_id: Seq<char>,
    message: Seq<char>,
    message_type: Seq<char>,
    channel: Seq<char>,
) -> Members {
    Map::<Seq<char>, Json>::empty().insert("bot_id"@, unsigned_json(bot_id)).insert(
        "chat_id"@,
        Json::String(chat_id),
    ).insert("message"@, Json::String(message)).insert(
        "message_type"@,
        Json::String(message_type),
    ).insert("channel"@, Json::String(channel))
}

/// The body that asks for the state of a conversation.
pub open spec fn status_members(bot_id: nat, chat_id: Seq<char>) -> Members {
    Map::<Seq<char>, Json>::empty().insert("bot_id"@, unsigned_json(bot_id)).insert(
        "chat_id"@,
        Json::String(chat_id),
    )
}

/// The body that moves a conversation to another state.
pub open spec fn state_members(bot_id: nat, chat_id: Seq<char>, next_state: Seq<char>) -> Members {
    status_members(bot_id, chat_id).insert("next_state"@, Json::String(next_state))
}

/// The view of a text that may be left out.
pub open spec fn optional_str_view(text: Option<&str>) -> Option<Seq<char>> {
    match text {
        Some(text) => Some(text@),
        None => None,
    }
}

/// The view of a list of texts that may be left out.
pub open spec fn optional_strings_view(texts: Option<Vec<String>>) -> Option<Seq<Seq<char>>> {
    match texts {
        Some(texts) => Some(string_views(texts@)),
        None => None,
    }
}

/// The view of intents that may be left out.
pub open spec fn optional_intents_view(intents: Option<Vec<(String, Vec<String>)>>) -> Option<
    Map<Seq<char>, Seq<Seq<char>>>,
> {
    match intents {
        Some(intents) => Some(entries_map(intent_entries(intents@))),
        None => None,
    }
}

/// The view of a flow that may be left out.
pub open spec fn optional_flow_view(flow: Option<serde_json::Map<String, Value>>) -> Option<
    Members,
> {
    match flow {
        Some(flow) => Some(object_members(flow)),
        None => None,
    }
}

/// Builds the document for a list of texts.
pub fn text_list(texts: &Vec<String>) -> (document: Value)
    ensures
        json_model(document) == text_list_json(string_views(texts@)),
{
    let mut items: Vec<Value> = Vec::new();
    let mut i: usize = 0;
    while i < texts.len()
        invariant
            i <= texts.len(),
            items@.len() == i,
            forall|j: int| 0 <= j < i ==> json_model(#[trigger] items@[j]) == Json::String(texts@[j]@),
        decreases texts.len() - i,
    {
        items.push(json_string(texts[i].clone()));
        i += 1;
    }
    assert(json_models(items@) =~= string_views(texts@).map_values(
        |text: Seq<char>| Json::String(text),
    ));
    json_array(items)
}

/// Rewriting the values of a map commutes with adding an entry.
pub proof fn lemma_map_values_insert<S, T>(
    map: Map<Seq<char>, S>,
    image: spec_fn(S) -> T,
    key: Seq<char>,
    value: S,
)
    ensures
        map.insert(key, value).map_values(image) == map.map_values(image).insert(key, image(value)),
{
    assert(map.insert(key, value).map_values(image) =~= map.map_values(image).insert(
        key,
        image(value),
    ));
}

/// Builds the document for a list of intents.
pub fn intents_document(intents: &Vec<(String, Vec<String>)>) -> (document: Value)
    ensures
        json_model(document) == intents_json(entries_map(intent_entries(intents@))),
{
    let ghost entries = intent_entries(intents@);
    let ghost image = |phrases: Seq<Seq<char>>| text_list_json(phrases);
    let mut members = serde_json::Map::new();
    let mut i: usize = 0;
    assert(entries.take(0) =~= Seq::empty());
    assert(object_members(members) =~= entries_map(entries.take(0)).map_values(image));
    while i < intents.len()
        invariant
            i <= intents.len(),
            entries == intent_entries(intents@),
            image == (|phrases: Seq<Seq<char>>| text_list_json(phrases)),
            object_members(members) == entries_map(entries.take(i as int)).map_values(image),
        decreases intents.len() - i,
    {
        let name = intents[i].0.clone();
        let phrases = text_list(&intents[i].1);
        proof {
            let front = entries.take(i as int);
            let next = entries.take(i + 1);
            assert(next.drop_last() =~= front);
            assert(next.last() == entries[i as int]);
            lemma_map_values_insert(entries_map(front), image, next.last().0, next.last().1);
        }
        members.insert(name, phrases);
        i += 1;
    }
    assert(entries.take(i as int) =~= entries);
    json_object(members)
}

/// Builds the body that creates or replaces a chatbot.
pub fn bot_payload(
    name: &str,
    description: Option<&str>,
    industry: Option<&str>,
    flow: Option<serde_json::Map<String, Value>>,
    intents: Option<Vec<(String, Vec<String>)>>,
    webhook_url: Option<&str>,
    webhook_trigger_intents: Option<Vec<String>>,
    visible_on_community: Option<bool>,
) -> (payload: Value)
    ensures
        json_model(payload) == Json::Object(
            bot_members(
                name@,
                optional_str_view(description),
                optional_str_view(industry),
                optional_flow_view(flow),
                optional_intents_view(intents),
                optional_str_view(webhook_url),
                optional_strings_view(webhook_trigger_intents),
                visible_on_community,
            ),
        ),
{
    let mut data = serde_json::Map::new();
    assert(object_members(data) =~= Map::<Seq<char>, Json>::empty());
    data.insert("name".to_owned(), json_string(name.to_owned()));
    if let Some(description) = description {
        data.insert("description".to_owned(), json_string(description.to_owned()));
    }
    if let Some(industry) = industry {
        data.insert("industry".to_owned(), json_string(industry.to_owned()));
    }
    if let Some(flow) = flow {
        data.insert("flow".to_owned(), json_object(flow));
    }
    if let Some(intents) = intents {
        data.insert("intents".to_owned(), intents_document(&intents));
    }
    if let Some(webhook_url) = webhook_url {
        data.insert("webhook_url".to_owned(), json_string(webhook_url.to_owned()));
    }
    if let Some(webhook_trigger_intents) = webhook_trigger_intents {
        data.insert("webhook_trigger_intents".to_owned(), text_list(&webhook_trigger_intents));
    }
    if let Some(visible_on_community) = visible_on_community {
        data.insert("visible_on_community".to_owned(), json_bool(visible_on_community));
    }
    json_object(data)
}

/// Builds the body that sends a message into a conversation.
pub fn message_payload(
    bot_id: usize,
    chat_id: &str,
    message: &str,
    message_type: &str,
    channel: &str,
) -> (payload: Value)
    ensures
        json_model(payload) == Json::Object(
            message_members(bot_id as nat, chat_id@, message@, message_type@, channel@),
        ),
{
    let mut data = serde_json::Map::new();
    assert(object_members(data) =~= Map::<Seq<char>, Json>::empty());
    data.insert("bot_id".to_owned(), json_unsigned(bot_id));
    data.insert("chat_id".to_owned(), json_string(chat_id.to_owned()));
    data.insert("message".to_owned(), json_string(message.to_owned()));
    data.insert("message_type".to_owned(), json_string(message_type.to_owned()));
    data.insert("channel".to_owned(), json_string(channel.to_owned()));
    json_object(data)
}

/// Builds the body that asks for the state of a conversation.
pub fn status_payload(bot_id: usize, chat_id: &str) -> (payload: Value)
    ensures
        json_model(payload) == Json::Object(status_members(bot_id as nat, chat_id@)),
{
    let mut data = serde_json::Map::new();
    assert(object_members(data) =~= Map::<Seq<char>, Json>::empty());
    data.insert("bot_id".to_owned(), json_unsigned(bot_id));
    data.insert("chat_id".to_owned(), json_string(chat_id.to_owned()));
    json_object(data)
}

/// Builds the body that moves a conversation to another state.
pub fn state_payload(bot_id: usize, chat_id: &str, next_state: &str) -> (payload: Value)
    ensures
        json_model(payload) == Json::Object(state_members(bot_id as nat, chat_id@, next_state@)),
{
    let mut data = serde_json::Map::new();
    assert(object_members(data) =~= Map::<Seq<char>, Json>::empty());
    data.insert("bot_id".to_owned(), json_unsigned(bot_id));
    data.insert("chat_id".to_owned(), json_string(chat_id.to_owned()));
    data.insert("next_state".to_owned(), json_string(next_state.to_owned()));
    json_object(data)
}

} // verus!
