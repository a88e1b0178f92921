//! The chatbot record that the service answers most requests with.

use crate::entries::{distinct_names, entries_map, enumerates, lemma_entries_of_keys};
use crate::errors::ApiError;
use crate::fields::{
    expected_array, expected_object, failed_with, flag_field, invalid, invalid_field,
    members_field, not_an_array, not_an_object, optional, optional_number_field, optional_of,
    read_flag_field, read_members_field, read_optional_number_field, read_text_field, read_texts,
    read_texts_field, read_u64_field, read_usize_field, string_views, text_field, texts_field,
    texts_of, unsigned_field, Members,
};
use crate::json::{
    find_member, json_model, json_models, member_names, object_members, Json, JsonNumber,
};
use crate::metrics::{evaluation_metrics_of, EvaluationMetrics, EvaluationMetricsView};
use crate::numeral::Numeral;
use serde_json::Value;
use vstd::pervasive::unreached;
use vstd::prelude::*;

verus! {

/// A chatbot as the service describes it.
///
/// The record mirrors the state the service holds; the client never changes
/// one, it only reads them out of replies.
#[derive(Debug, PartialEq)]
pub struct Bot {
    pub id: usize,
    pub confidence_threshold: Option<Numeral>,
    pub user_id: u64,
    pub name: String,
    pub description: String,
    /// The trigger phrases of each intent, under the intent's name.
    pub intents: Vec<(String, Vec<String>)>,
    /// The definition of each state of the conversation, under the state's
    /// name.
    pub flows: serde_json::Map<String, Value>,
    pub model_name: String,
    pub evaluation_metrics: Option<EvaluationMetrics>,
    pub industry: String,
    pub language: String,
    pub visible_on_community: bool,
    pub webhook_url: String,
    pub webhook_trigger_intents: Vec<String>,
    pub created_at: String,
    pub updated_at: String,
}

/// What a [`Bot`] holds.
pub struct BotView {
    pub id: nat,
    pub confidence_threshold: Option<JsonNumber>,
    pub user_id: nat,
    pub name: Seq<char>,
    pub description: Seq<char>,
    pub intents: Map<Seq<char>, Seq<Seq<char>>>,
    pub flows: Members,
    pub model_name: Seq<char>,
    pub evaluation_metrics: Option<EvaluationMetricsView>,
    pub industry: Seq<char>,
    pub language: Seq<char>,
    pub visible_on_community: bool,
    pub webhook_url: Seq<char>,
    pub webhook_trigger_intents: Seq<Seq<char>>,
    pub created_at: Seq<char>,
    pub updated_at: Seq<char>,
}

/// The views of a list of intents.
pub open spec fn intent_entries(list: Seq<(String, Vec<String>)>) -> Seq<
    (Seq<char>, Seq<Seq<char>>),
> {
    list.map_values(|entry: (String, Vec<String>)| (entry.0@, string_views(entry.1@)))
}

impl View for Bot {
    type V = BotView;

    open spec fn view(&self) -> BotView {
        BotView {
            id: self.id as nat,
            confidence_threshold: match self.confidence_threshold {
                Some(threshold) => Some(threshold@),
                None => None,
            },
            user_id: self.user_id as nat,
            name: self.name@,
            description: self.description@,
            intents: entries_map(intent_entries(self.intents@)),
            flows: object_members(self.flows),
            model_name: self.model_name@,
            evaluation_metrics: match self.evaluation_metrics {
                Some(evaluation) => Some(evaluation@),
                None => None,
            },
            industry: self.industry@,
            language: self.language@,
            visible_on_community: self.visible_on_community,
            webhook_url: self.webhook_url@,
            webhook_trigger_intents: string_views(self.webhook_trigger_intents@),
            created_at: self.created_at@,
            updated_at: self.updated_at@,
        }
    }
}

/// The intents that an object of phrase lists gives. One member that is no
/// list of texts spoils the whole object.
pub open spec fn intents_of(members: Members, key: Seq<char>) -> Result<
    Map<Seq<char>, Seq<Seq<char>>>,
    Seq<char>,
> {
    if forall|name: Seq<char>|
        members.contains_key(name) ==> texts_of(#[trigger] members[name], key) is Ok {
        Ok(members.map_values(|value: Json| texts_of(value, key)->Ok_0))
    } else {
        Err(invalid_field(key))
    }
}

/// The intents among the members of an object.
pub open spec fn intents_field(members: Members, key: Seq<char>) -> Result<
    Map<Seq<char>, Seq<Seq<char>>>,
    Seq<char>,
> {
    match members_field(members, key) {
        Ok(inner) => intents_of(inner, key),
        Err(message) => Err(message),
    }
}

/// The evaluation among the members of an object, where it is there.
pub open spec fn optional_evaluation_field(members: Members, key: Seq<char>) -> Result<
    Option<EvaluationMetricsView>,
    Seq<char>,
> {
    match optional_of(members, key) {
        Some(value) => match evaluation_metrics_of(value, key) {
            Ok(evaluation) => Ok(Some(evaluation)),
            Err(message) => Err(message),
        },
        None => Ok(None),
    }
}

/// The chatbot that the members of an object describe, or the message that
/// reports the first field, in the order of the record, that is absent or of
/// the wrong kind.
pub open spec fn bot_of_members(members: Members) -> Result<BotView, Seq<char>> {
    let id = unsigned_field(members, "id"@, usize::MAX as int);
    let confidence_threshold = optional_number_field(members, "confidence_threshold"@);
    let user_id = unsigned_field(members, "user_id"@, u64::MAX as int);
    let name = text_field(members, "name"@);
    let description = text_field(members, "description"@);
    let intents = intents_field(members, "intents"@);
    let flows = members_field(members, "flows"@);
    let model_name = text_field(members, "model_name"@);
    let evaluation_metrics = optional_evaluation_field(members, "evaluation_metrics"@);
    let industry = text_field(members, "industry"@);
    let language = text_field(members, "language"@);
    let visible_on_community = flag_field(members, "visible_on_community"@);
    let webhook_url = text_field(members, "webhook_url"@);
    let webhook_trigger_intents = texts_field(members, "webhook_trigger_intents"@);
    let created_at = text_field(members, "created_at"@);
    let updated_at = text_field(members, "updated_at"@);
    if id is Err {
        Err(id->Err_0)
    } else if confidence_threshold is Err {
        Err(confidence_threshold->Err_0)
    } else if user_id is Err {
        Err(user_id->Err_0)
    } else if name is Err {
        Err(name->Err_0)
    } else if description is Err {
        Err(description->Err_0)
    } else if intents is Err {
        Err(intents->Err_0)
    } else if flows is Err {
        Err(flows->Err_0)
    } else if model_name is Err {
        Err(model_name->Err_0)
    } else if evaluation_metrics is Err {
        Err(evaluation_metrics->Err_0)
    } else if industry is Err {
        Err(industry->Err_0)
    } else if language is Err {
        Err(language->Err_0)
    } else if visible_on_community is Err {
        Err(visible_on_community->Err_0)
    } else if webhook_url is Err {
        Err(webhook_url->Err_0)
    } else if webhook_trigger_intents is Err {
        Err(webhook_trigger_intents->Err_0)
    } else if created_at is Err {
        Err(created_at->Err_0)
    } else if updated_at is Err {
        Err(updated_at->Err_0)
    } else {
        Ok(
            BotView {
                id: id->Ok_0,
                confidence_threshold: confidence_threshold->Ok_0,
                user_id: user_id->Ok_0,
                name: name->Ok_0,
                description: description->Ok_0,
                intents: intents->Ok_0,
                flows: flows->Ok_0,
                model_name: model_name->Ok_0,
                evaluation_metrics: evaluation_metrics->Ok_0,
                industry: industry->Ok_0,
                language: language->Ok_0,
                visible_on_community: visible_on_community->Ok_0,
                webhook_url: webhook_url->Ok_0,
                webhook_trigger_intents: webhook_trigger_intents->Ok_0,
                created_at: created_at->Ok_0,
                updated_at: updated_at->Ok_0,
            },
        )
    }
}

/// The chatbot that a document describes.
pub open spec fn bot_of(document: Json) -> Result<BotView, Seq<char>> {
    match document {
        Json::Object(members) => bot_of_members(members),
        _ => Err(expected_object()),
    }
}

/// The chatbots that a sequence of documents describes, or the message
/// about the first document that describes none.
pub open spec fn bot_list_of(documents: Seq<Json>) -> Result<Seq<BotView>, Seq<char>>
    decreases documents.len(),
{
    if documents.len() == 0 {
        Ok(Seq::empty())
    } else {
        match bot_list_of(documents.drop_last()) {
            Err(message) => Err(message),
            Ok(front) => match bot_of(documents.last()) {
                Ok(bot) => Ok(front.push(bot)),
                Err(message) => Err(message),
            },
        }
    }
}

/// The chatbots that a document lists.
pub open spec fn bots_of(document: Json) -> Result<Seq<BotView>, Seq<char>> {
    match document {
        Json::Array(documents) => bot_list_of(documents),
        _ => Err(expected_array()),
    }
}

/// The views of a sequence of chatbots.
pub open spec fn bot_views(bots: Seq<Bot>) -> Seq<BotView> {
    bots.map_values(|bot: Bot| bot@)
}

/// Whether every chatbot of a sequence is well formed.
pub open spec fn all_well_formed(bots: Seq<Bot>) -> bool {
    forall|i: int| 0 <= i < bots.len() ==> (#[trigger] bots[i]).well_formed()
}

/// Reads the intents out of an object of phrase lists.
fn read_intents(members: &serde_json::Map<String, Value>, key: &str) -> (outcome: Result<
    Vec<(String, Vec<String>)>,
    ApiError,
>)
    ensures
        match intents_of(object_members(*members), key@) {
            Ok(intents) => outcome matches Ok(read) && distinct_names(intent_entries(read@))
                && entries_map(intent_entries(read@)) == intents,
            Err(message) => failed_with(outcome, message),
        },
{
    let names = member_names(members);
    let ghost listed = object_members(*members);
    let ghost image = |value: Json| texts_of(value, key@)->Ok_0;
    let mut read: Vec<(String, Vec<String>)> = Vec::new();
    let mut i: usize = 0;
    while i < names.len()
        invariant
            i <= names.len(),
            read@.len() == i,
            listed == object_members(*members),
            enumerates(names@, listed),
            forall|j: int|
                0 <= j < i ==> (#[trigger] read@[j]).0@ == names@[j]@ && texts_of(
                    listed[names@[j]@],
                    key@,
                ) == Ok::<Seq<Seq<char>>, Seq<char>>(string_views(read@[j].1@)),
        decreases names.len() - i,
    {
        assert(listed.contains_key(names@[i as int]@));
        match find_member(members, names[i].as_str()) {
            Some(value) => match read_texts(value, key) {
                Ok(phrases) => {
                    read.push((names[i].clone(), phrases));
                },
                Err(_) => {
                    assert(texts_of(listed[names@[i as int]@], key@) is Err);
                    return Err(invalid(key));
                },
            },
            None => {
                return unreached();
            },
        }
        i += 1;
    }
    proof {
        let entries = intent_entries(read@);
        assert forall|name: Seq<char>| listed.contains_key(name) implies texts_of(
            #[trigger] listed[name],
            key@,
        ) is Ok by {
            let j = choose|j: int| 0 <= j < names@.len() && #[trigger] names@[j]@ == name;
            assert(read@[j].0@ == names@[j]@);
        }
        assert forall|j: int| 0 <= j < entries.len() implies (#[trigger] entries[j]).0
            == names@[j]@ && entries[j].1 == image(listed[names@[j]@]) by {
            assert(read@[j].0@ == names@[j]@);
        }
        lemma_entries_of_keys(names@, listed, image, entries);
    }
    Ok(read)
}

impl Bot {
    /// Whether no intent and no category of the evaluation is listed twice.
    /// Every chatbot that is read from a reply is well formed.
    pub open spec fn well_formed(&self) -> bool {
        &&& distinct_names(intent_entries(self.intents@))
        &&& self.evaluation_metrics matches Some(evaluation) ==> evaluation.well_formed()
    }

    /// Reads a chatbot from the members of an object.
    pub fn from_members(members: &serde_json::Map<String, Value>) -> (outcome: Result<
        Bot,
        ApiError,
    >)
        ensures
            match bot_of_members(object_members(*members)) {
                Ok(bot) => outcome matches Ok(read) && read@ == bot && read.well_formed(),
                Err(message) => failed_with(outcome, message),
            },
    {
        let id = read_usize_field(members, "id")?;
        let confidence_threshold = read_optional_number_field(members, "confidence_threshold")?;
        let user_id = read_u64_field(members, "user_id")?;
        let name = read_text_field(members, "name")?;
        let description = read_text_field(members, "description")?;
        let intents = read_intents(read_members_field(members, "intents")?, "intents")?;
        let flows = read_members_field(members, "flows")?.clone();
        let model_name = read_text_field(members, "model_name")?;
        let evaluation_metrics = match optional(members, "evaluation_metrics") {
            Some(value) => Some(EvaluationMetrics::from_json(value, "evaluation_metrics")?),
            None => None,
        };
        let industry = read_text_field(members, "industry")?;
        let language = read_text_field(members, "language")?;
        let visible_on_community = read_flag_field(members, "visible_on_community")?;
        let webhook_url = read_text_field(members, "webhook_url")?;
        let webhook_trigger_intents = read_texts_field(members, "webhook_trigger_intents")?;
        let created_at = read_text_field(members, "created_at")?;
        let updated_at = read_text_field(members, "updated_at")?;
        Ok(
            Bot {
                id,
                confidence_threshold,
                user_id,
                name,
                description,
                intents,
                flows,
                model_name,
                evaluation_metrics,
                industry,
                language,
                visible_on_community,
                webhook_url,
                webhook_trigger_intents,
                created_at,
                updated_at,
            },
        )
    }

    /// Reads a chatbot from a document.
    pub fn from_json(document: &Value) -> (outcome: Result<Bot, ApiError>)
        ensures
            match bot_of(json_model(*document)) {
                Ok(bot) => outcome matches Ok(read) && read@ == bot && read.well_formed(),
                Err(message) => failed_with(outcome, message),
            },
    {
        match document.as_object() {
            Some(members) => Bot::from_members(members),
            None => Err(not_an_object()),
        }
    }

    /// Reads a list of chatbots from a document.
    pub fn list_from_json(document: &Value) -> (outcome: Result<Vec<Bot>, ApiError>)
        ensures
            match bots_of(json_model(*document)) {
                Ok(bots) => outcome matches Ok(read) && bot_views(read@) == bots && all_well_formed(
                    read@,
                ),
                Err(message) => failed_with(outcome, message),
            },
    {
        match document.as_array() {
            Some(documents) => {
                let ghost models = json_models(documents@);
                let mut read: Vec<Bot> = Vec::new();
                let mut i: usize = 0;
                assert(models.take(0) =~= Seq::<Json>::empty());
                assert(bot_views(read@) =~= Seq::<BotView>::empty());
                while i < documents.len()
                    invariant
                        i <= documents.len(),
                        models == json_models(documents@),
                        json_model(*document) == Json::Array(models),
                        read@.len() == i,
                        bot_list_of(models.take(i as int)) == Ok::<Seq<BotView>, Seq<char>>(
                            bot_views(read@),
                        ),
                        all_well_formed(read@),
                    decreases documents.len() - i,
                {
                    let ghost before = bot_views(read@);
                    assert(models.take(i + 1).drop_last() =~= models.take(i as int));
                    assert(models.take(i + 1).last() == json_model(documents@[i as int]));
                    match Bot::from_json(&documents[i]) {
                        Ok(bot) => {
                            read.push(bot);
                            assert(bot_views(read@) =~= before.push(bot@));
                        },
                        Err(error) => {
                            proof {
                                lemma_bot_list_fails(models, i as int + 1);
                            }
                            return Err(error);
                        },
                    }
                    i += 1;
                }
                assert(models.take(i as int) =~= models);
                Ok(read)
            },
            None => Err(not_an_array()),
        }
    }
}

/// Once a front part of a list describes no list of chatbots, no longer
/// part does, and the message stays the same.
pub proof fn lemma_bot_list_fails(documents: Seq<Json>, count: int)
    requires
        0 <= count <= documents.len(),
        bot_list_of(documents.take(count)) is Err,
    ensures
        bot_list_of(documents) == bot_list_of(documents.take(count)),
    decreases documents.len() - count,
{
    if count < documents.len() {
        assert(documents.take(count + 1).drop_last() =~= documents.take(count));
        lemma_bot_list_fails(documents, count + 1);
    } else {
        assert(documents.take(count) =~= documents);
    }
}

} // verus!
