//! The client: one pair of functions for each operation of the service.
//!
//! The function whose name ends in `_request` builds the request of an
//! operation; the function that bears the operation's own name reads the
//! reply that came back for it. Sending the one and receiving the other is
//! the caller's part.

use crate::bot::Bot;
use crate::errors::{ApiError, ApiErrorView};
use crate::fields::{failed_with, Members};
use crate::http::{header_views, Method, Request, RequestView, Response};
use crate::json::{json_model, json_of_text, Json};
use crate::payload::{
    bot_members, bot_payload, message_members, message_payload, optional_flow_view,
    optional_intents_view, optional_str_view, optional_strings_view, state_members, state_payload,
    status_members, status_payload,
};
use crate::reply::{
    bot_outcome, bots_outcome, document, done_outcome, failed, message_outcome, read_bot,
    read_bots, read_done, read_message, read_text_body, text_outcome,
};
use crate::utils::{api_url, decimal, decimal_text, generate_uuid, validate_keys, BASE_URL};
use serde_json::Value;
use vstd::prelude::*;

verus! {

/// The entry to the Sarufi API: it holds the credential and speaks the
/// service's protocol.
#[derive(Debug)]
pub struct SarufiAPI {
    api_key: String,
}

/// The path under which the chatbot with the number `id` lives.
pub open spec fn bot_path(id: nat) -> Seq<char> {
    "/chatbot/"@ + decimal(id)
}

/// The path that takes messages from `channel`.
pub open spec fn conversation_path(channel: Seq<char>) -> Seq<char> {
    if channel == "whatsapp"@ {
        "/conversation/whatsapp"@
    } else {
        "/conversation"@
    }
}

/// The message that reports a file that holds JSON but no object.
pub open spec fn invalid_json() -> Seq<char> {
    "Invalid JSON"@
}

/// The body of a request, where it has one.
pub open spec fn body_of(members: Members) -> Option<Json> {
    Some(Json::Object(members))
}

impl SarufiAPI {
    /// The credential that the client was made with.
    pub closed spec fn credential(&self) -> Seq<char> {
        self.api_key@
    }

    /// Makes a client for the given API key. An empty key is refused, any
    /// other is taken as it is.
    pub fn new(api_key: &str) -> (outcome: Result<SarufiAPI, ApiError>)
        ensures
            match outcome {
                Ok(api) => api_key@.len() != 0 && api.credential() == api_key@,
                Err(error) => api_key@.len() == 0 && error@ == ApiErrorView::InvalidApiKey,
            },
    {
        validate_keys(api_key)?;
        Ok(SarufiAPI { api_key: api_key.to_owned() })
    }

    /// The header fields that every request carries.
    pub open spec fn header_fields(&self) -> Seq<(Seq<char>, Seq<char>)> {
        seq![
            ("Authorization"@, "Bearer "@ + self.credential()),
            ("Content-Type"@, "application/json"@),
        ]
    }

    /// The request that asks `path` for something by `method`.
    pub open spec fn request_to(&self, method: Method, path: Seq<char>, body: Option<Json>)
        -> RequestView {
        RequestView { method, url: BASE_URL@ + path, headers: self.header_fields(), body }
    }

    /// Builds the header fields that every request carries.
    pub fn headers(&self) -> (fields: Vec<(String, String)>)
        ensures
            header_views(fields@) == self.header_fields(),
    {
        let mut fields: Vec<(String, String)> = Vec::new();
        fields.push(
            ("Authorization".to_owned(), "Bearer ".to_owned().concat(self.api_key.as_str())),
        );
        fields.push(("Content-Type".to_owned(), "application/json".to_owned()));
        assert(header_views(fields@) =~= self.header_fields());
        fields
    }

    fn request(&self, method: Method, path: &str, body: Option<Value>) -> (request: Request)
        ensures
            request@ == self.request_to(
                method,
                path@,
                match body {
                    Some(document) => Some(json_model(document)),
                    None => None,
                },
            ),
    {
        Request { method, url: api_url(path), headers: self.headers(), body }
    }

    /// The request that fetches the chatbot with the number `id`.
    pub fn get_bot_request(&self, id: usize) -> (request: Request)
        ensures
            request@ == self.request_to(Method::Get, bot_path(id as nat), None),
    {
        let path = "/chatbot/".to_owned().concat(decimal_text(id).as_str());
        self.request(Method::Get, path.as_str(), None)
    }

    /// Reads the reply to [`SarufiAPI::get_bot_request`].
    pub fn get_bot(&self, reply: &Response) -> (outcome: Result<Bot, ApiError>)
        ensures
            bot_outcome(*reply, outcome),
    {
        read_bot(reply)
    }

    /// The request that fetches every chatbot of the account.
    pub fn get_all_bots_request(&self) -> (request: Request)
        ensures
            request@ == self.request_to(Method::Get, "/chatbots"@, None),
    {
        self.request(Method::Get, "/chatbots", None)
    }

    /// Reads the reply to [`SarufiAPI::get_all_bots_request`].
    pub fn get_all_bots(&self, reply: &Response) -> (outcome: Result<Vec<Bot>, ApiError>)
        ensures
            bots_outcome(*reply, outcome),
    {
        read_bots(reply)
    }

    /// The request that sends a message into a conversation. Messages from
    /// the channel `"whatsapp"` have an endpoint of their own.
    pub fn _fetch_request(
        &self,
        bot_id: usize,
        chat_id: &str,
        message: &str,
        message_type: &str,
        channel: &str,
    ) -> (request: Request)
        ensures
            request@ == self.request_to(
                Method::Post,
                conversation_path(channel@),
                body_of(message_members(bot_id as nat, chat_id@, message@, message_type@, channel@)),
            ),
    {
        let body = message_payload(bot_id, chat_id, message, message_type, channel);
        if channel.to_owned() == "whatsapp".to_owned() {
            self.request(Method::Post, "/conversation/whatsapp", Some(body))
        } else {
            self.request(Method::Post, "/conversation", Some(body))
        }
    }

    /// Reads the reply to [`SarufiAPI::_fetch_request`]: the first message
    /// of the answer, as JSON text.
    pub fn _fetch_response(&self, reply: &Response) -> (outcome: Result<String, ApiError>)
        ensures
            message_outcome(*reply, outcome),
    {
        read_message(reply)
    }

    /// The request that opens a conversation with the chatbot `bot_id`: a
    /// greeting, sent on the general channel under a fresh conversation
    /// number.
    pub fn chat_request(&self, bot_id: usize) -> (request: Request)
        ensures
            exists|chat_id: Seq<char>|
                chat_id.len() == 36 && request@ == #[trigger] self.request_to(
                    Method::Post,
                    "/conversation"@,
                    body_of(
                        message_members(bot_id as nat, chat_id, "Hello"@, "text"@, "general"@),
                    ),
                ),
    {
        let chat_id = generate_uuid();
        proof {
            reveal_strlit("general");
            reveal_strlit("whatsapp");
            assert("general"@.len() != "whatsapp"@.len());
        }
        let request = self._fetch_request(bot_id, chat_id.as_str(), "Hello", "text", "general");
        assert(request@ == self.request_to(
            Method::Post,
            "/conversation"@,
            body_of(message_members(bot_id as nat, chat_id@, "Hello"@, "text"@, "general"@)),
        ));
        request
    }

    /// Reads the reply to [`SarufiAPI::chat_request`].
    pub fn chat(&self, reply: &Response) -> (outcome: Result<String, ApiError>)
        ensures
            message_outcome(*reply, outcome),
    {
        read_message(reply)
    }

    /// The request that asks for the state of a conversation.
    pub fn chat_status_request(&self, bot_id: usize, chat_id: &str) -> (request: Request)
        ensures
            request@ == self.request_to(
                Method::Post,
                "/allchannels/status"@,
                body_of(status_members(bot_id as nat, chat_id@)),
            ),
    {
        self.request(Method::Post, "/allchannels/status", Some(status_payload(bot_id, chat_id)))
    }

    /// Reads the reply to [`SarufiAPI::chat_status_request`]: the body, as
    /// the text it is.
    pub fn chat_status(&self, reply: &Response) -> (outcome: Result<String, ApiError>)
        ensures
            text_outcome(*reply, outcome),
    {
        read_text_body(reply)
    }

    /// The request that moves a conversation to the state `next_state`.
    pub fn update_conversation_state_request(
        &self,
        bot_id: usize,
        chat_id: &str,
        next_state: &str,
    ) -> (request: Request)
        ensures
            request@ == self.request_to(
                Method::Post,
                "/conversation-state"@,
                body_of(state_members(bot_id as nat, chat_id@, next_state@)),
            ),
    {
        self.request(
            Method::Post,
            "/conversation-state",
            Some(state_payload(bot_id, chat_id, next_state)),
        )
    }

    /// Reads the reply to [`SarufiAPI::update_conversation_state_request`]:
    /// the body, as the text it is.
    pub fn update_conversation_state(&self, reply: &Response) -> (outcome: Result<
        String,
        ApiError,
    >)
        ensures
            text_outcome(*reply, outcome),
    {
        read_text_body(reply)
    }

    /// The request that deletes the chatbot with the number `id`.
    pub fn delete_bot_request(&self, id: usize) -> (request: Request)
        ensures
            request@ == self.request_to(Method::Delete, bot_path(id as nat), None),
    {
        let path = "/chatbot/".to_owned().concat(decimal_text(id).as_str());
        self.request(Method::Delete, path.as_str(), None)
    }

    /// Reads the reply to [`SarufiAPI::delete_bot_request`]. A reply that
    /// reports success needs no body.
    pub fn delete_bot(&self, reply: &Response) -> (outcome: Result<(), ApiError>)
        ensures
            done_outcome(*reply, outcome),
    {
        read_done(reply)
    }

    /// The request that creates a chatbot. Its body holds the name and
    /// whichever of the other fields were given.
    pub fn create_bot_request(
        &self,
        name: &str,
        description: Option<&str>,
        industry: Option<&str>,
        flow: Option<serde_json::Map<String, Value>>,
        intents: Option<Vec<(String, Vec<String>)>>,
        webhook_url: Option<&str>,
        webhook_trigger_intents: Option<Vec<String>>,
        visible_on_community: Option<bool>,
    ) -> (request: Request)
        ensures
            request@ == self.request_to(
                Method::Post,
                "/chatbot"@,
                body_of(
                    bot_members(
                        name@,
                        optional_str_view(description),
                        optional_str_view(industry),
                        optional_flow_view(flow),
                        optional_intents_view(intents),
                        optional_str_view(webhook_url),
                        optional_strings_view(webhook_trigger_intents),
                        visible_on_community,
                    ),
                ),
            ),
    {
        let body = bot_payload(
            name,
            description,
            industry,
            flow,
            intents,
            webhook_url,
            webhook_trigger_intents,
            visible_on_community,
        );
        self.request(Method::Post, "/chatbot", Some(body))
    }

    /// Reads the reply to [`SarufiAPI::create_bot_request`].
    pub fn create_bot(&self, reply: &Response) -> (outcome: Result<Bot, ApiError>)
        ensures
            bot_outcome(*reply, outcome),
    {
        read_bot(reply)
    }

    /// The request that creates a chatbot from the contents of a file. The
    /// contents have to be one JSON object, which is sent as it is.
    pub fn create_bot_from_file_request(&self, contents: &str) -> (outcome: Result<
        Request,
        ApiError,
    >)
        ensures
            match json_of_text(contents@) {
                Some(Json::Object(members)) => outcome matches Ok(request) && request@
                    == self.request_to(Method::Post, "/chatbot"@, body_of(members)),
                Some(_) => failed_with(outcome, invalid_json()),
                None => failed(outcome),
            },
    {
        let data = document(contents)?;
        if data.as_object().is_some() {
            Ok(self.request(Method::Post, "/chatbot", Some(data)))
        } else {
            Err(ApiError::GenericError("Invalid JSON".to_owned()))
        }
    }

    /// Reads the reply to [`SarufiAPI::create_bot_from_file_request`].
    pub fn create_bot_from_file(&self, reply: &Response) -> (outcome: Result<Bot, ApiError>)
        ensures
            bot_outcome(*reply, outcome),
    {
        read_bot(reply)
    }

    /// The request that replaces the chatbot with the number `id`. Its body
    /// holds the name and whichever of the other fields were given.
    pub fn update_bot_request(
        &self,
        id: usize,
        name: &str,
        description: Option<&str>,
        industry: Option<&str>,
        flow: Option<serde_json::Map<String, Value>>,
        intents: Option<Vec<(String, Vec<String>)>>,
        webhook_url: Option<&str>,
        webhook_trigger_intents: Option<Vec<String>>,
        visible_on_community: Option<bool>,
    ) -> (request: Request)
        ensures
            request@ == self.request_to(
                Method::Put,
                bot_path(id as nat),
                body_of(
                    bot_members(
                        name@,
                        optional_str_view(description),
                        optional_str_view(industry),
                        optional_flow_view(flow),
                        optional_intents_view(intents),
                        optional_str_view(webhook_url),
                        optional_strings_view(webhook_trigger_intents),
                        visible_on_community,
                    ),
                ),
            ),
    {
        let body = bot_payload(
            name,
            description,
            industry,
            flow,
            intents,
            webhook_url,
            webhook_trigger_intents,
            visible_on_community,
        );
        let path = "/chatbot/".to_owned().concat(decimal_text(id).as_str());
        self.request(Method::Put, path.as_str(), Some(body))
    }

    /// Reads the reply to [`SarufiAPI::update_bot_request`].
    pub fn update_bot(&self, reply: &Response) -> (outcome: Result<Bot, ApiError>)
        ensures
            bot_outcome(*reply, outcome),
    {
        read_bot(reply)
    }
}

} // verus!
