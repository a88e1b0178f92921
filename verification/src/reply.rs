//! The one rule by which every reply of the service is read.
//!
//! A reply with a status from 200 to 299 carries what was asked for, and its
//! body is read as such. Any other reply carries a failure envelope, whose
//! message becomes the failure that is reported. A body that cannot be read
//! as what it should be is itself reported as a failure.

use crate::api::{error_of, SarufiApiError};
use crate::bot::{all_well_formed, bot_of, bot_views, bots_of, Bot};
use crate::errors::{ApiError, ApiErrorView};
use crate::fields::{failed_with, lookup_member};
use crate::http::{is_success_status, Response};
use crate::json::{json_model, json_null, json_of_text, parse_json, print_json, text_of_json, Json};
use serde_json::Value;
use vstd::prelude::*;

verus! {

/// Whether `outcome` is a generic failure, whatever its message.
pub open spec fn failed<T>(outcome: Result<T, ApiError>) -> bool {
    outcome matches Err(error) && error is GenericError
}

/// Reads the body of a reply as a JSON document. Where the body is no JSON
/// text, the failure carries the parser's own message.
pub fn document(body: &str) -> (outcome: Result<Value, ApiError>)
    ensures
        match json_of_text(body@) {
            Some(document) => outcome matches Ok(value) && json_model(value) == document,
            None => failed(outcome),
        },
{
    match parse_json(body) {
        Ok(value) => Ok(value),
        Err(error) => Err(ApiError::from(error)),
    }
}

/// The message that a failure envelope carries, or the message that
/// reports why the document is no envelope.
pub open spec fn refusal_message(document: Json) -> Seq<char> {
    match error_of(document) {
        Ok(message) => message,
        Err(message) => message,
    }
}

/// Whether `error` is what a reply with the body `body` and a status that
/// reports no success amounts to.
pub open spec fn reports_refusal(error: ApiError, body: Seq<char>) -> bool {
    match json_of_text(body) {
        Some(document) => error@ == ApiErrorView::GenericError(refusal_message(document)),
        None => error is GenericError,
    }
}

/// Reads the body of a reply that reports no success.
pub fn refusal(body: &str) -> (error: ApiError)
    ensures
        reports_refusal(error, body@),
{
    match document(body) {
        Ok(value) => match SarufiApiError::from_json(&value) {
            Ok(envelope) => ApiError::GenericError(envelope.message()),
            Err(error) => error,
        },
        Err(error) => error,
    }
}

/// Whether `outcome` is what `reply` amounts to where a chatbot was asked
/// for.
pub open spec fn bot_outcome(reply: Response, outcome: Result<Bot, ApiError>) -> bool {
    if is_success_status(reply.status) {
        match json_of_text(reply.body@) {
            Some(document) => match bot_of(document) {
                Ok(bot) => outcome matches Ok(read) && read@ == bot && read.well_formed(),
                Err(message) => failed_with(outcome, message),
            },
            None => failed(outcome),
        }
    } else {
        outcome matches Err(error) && reports_refusal(error, reply.body@)
    }
}

/// Whether `outcome` is what `reply` amounts to where the list of chatbots
/// was asked for.
pub open spec fn bots_outcome(reply: Response, outcome: Result<Vec<Bot>, ApiError>) -> bool {
    if is_success_status(reply.status) {
        match json_of_text(reply.body@) {
            Some(document) => match bots_of(document) {
                Ok(bots) => outcome matches Ok(read) && bot_views(read@) == bots
                    && all_well_formed(read@),
                Err(message) => failed_with(outcome, message),
            },
            None => failed(outcome),
        }
    } else {
        outcome matches Err(error) && reports_refusal(error, reply.body@)
    }
}

/// Whether `outcome` is what `reply` amounts to where nothing was asked
/// for but that the request be carried out. A reply that reports success
/// is taken at its word, whatever its body holds.
pub open spec fn done_outcome(reply: Response, outcome: Result<(), ApiError>) -> bool {
    if is_success_status(reply.status) {
        outcome is Ok
    } else {
        outcome matches Err(error) && reports_refusal(error, reply.body@)
    }
}

/// Whether `outcome` is what `reply` amounts to where the body is handed
/// on as the text it is.
pub open spec fn text_outcome(reply: Response, outcome: Result<String, ApiError>) -> bool {
    if is_success_status(reply.status) {
        outcome matches Ok(text) && text@ == reply.body@
    } else {
        outcome matches Err(error) && reports_refusal(error, reply.body@)
    }
}

/// The first of the messages that a document holds under `"message"`, and
/// `null` where there is none.
pub open spec fn first_message(document: Json) -> Json {
    match document.member("message"@) {
        Some(messages) => match messages.item(0) {
            Some(first) => first,
            None => Json::Null,
        },
        None => Json::Null,
    }
}

/// Whether `outcome` is what `reply` amounts to where the answer to a
/// message was asked for: the first message of the reply, as JSON text.
pub open spec fn message_outcome(reply: Response, outcome: Result<String, ApiError>) -> bool {
    if is_success_status(reply.status) {
        match json_of_text(reply.body@) {
            Some(document) => outcome matches Ok(text) && text@ == text_of_json(
                first_message(document),
            ),
            None => failed(outcome),
        }
    } else {
        outcome matches Err(error) && reports_refusal(error, reply.body@)
    }
}

/// Reads a reply that should carry a chatbot.
pub fn read_bot(reply: &Response) -> (outcome: Result<Bot, ApiError>)
    ensures
        bot_outcome(*reply, outcome),
{
    if reply.is_success() {
        let value = document(reply.body.as_str())?;
        Bot::from_json(&value)
    } else {
        Err(refusal(reply.body.as_str()))
    }
}

/// Reads a reply that should carry the list of chatbots.
pub fn read_bots(reply: &Response) -> (outcome: Result<Vec<Bot>, ApiError>)
    ensures
        bots_outcome(*reply, outcome),
{
    if reply.is_success() {
        let value = document(reply.body.as_str())?;
        Bot::list_from_json(&value)
    } else {
        Err(refusal(reply.body.as_str()))
    }
}

/// Reads a reply that only confirms or refuses.
pub fn read_done(reply: &Response) -> (outcome: Result<(), ApiError>)
    ensures
        done_outcome(*reply, outcome),
{
    if reply.is_success() {
        Ok(())
    } else {
        Err(refusal(reply.body.as_str()))
    }
}

/// Reads a reply whose body is handed on as text.
pub fn read_text_body(reply: &Response) -> (outcome: Result<String, ApiError>)
    ensures
        text_outcome(*reply, outcome),
{
    if reply.is_success() {
        Ok(reply.body.clone())
    } else {
        Err(refusal(reply.body.as_str()))
    }
}

/// Picks the first message out of a document, as JSON text.
pub fn first_message_text(document: &Value) -> (text: String)
    ensures
        text@ == text_of_json(first_message(json_model(*document))),
{
    match lookup_member(document, "message") {
        Some(messages) => match messages.as_array() {
            Some(items) => if items.len() > 0 {
                print_json(&items[0])
            } else {
                print_json(&json_null())
            },
            None => print_json(&json_null()),
        },
        None => print_json(&json_null()),
    }
}

/// Reads a reply that should carry the answer to a message.
pub fn read_message(reply: &Response) -> (outcome: Result<String, ApiError>)
    ensures
        message_outcome(*reply, outcome),
{
    if reply.is_success() {
        let value = document(reply.body.as_str())?;
        Ok(first_message_text(&value))
    } else {
        Err(refusal(reply.body.as_str()))
    }
}

/// A reply that reports no success and carries a failure envelope amounts
/// to the failure with the envelope's message, whatever was asked for.
pub proof fn lemma_refusal_carries_message(
    reply: Response,
    members: Map<Seq<char>, Json>,
    message: Seq<char>,
    bot: Result<Bot, ApiError>,
    bots: Result<Vec<Bot>, ApiError>,
    done: Result<(), ApiError>,
    text: Result<String, ApiError>,
    answer: Result<String, ApiError>,
)
    requires
        !is_success_status(reply.status),
        json_of_text(reply.body@) == Some(Json::Object(members)),
        members.contains_key("error"@),
        members["error"@] == Json::String(message),
        bot_outcome(reply, bot),
        bots_outcome(reply, bots),
        done_outcome(reply, done),
        text_outcome(reply, text),
        message_outcome(reply, answer),
    ensures
        failed_with(bot, message),
        failed_with(bots, message),
        failed_with(done, message),
        failed_with(text, message),
        failed_with(answer, message),
{
}

} // verus!
