//! What holds of the bodies that are sent and of the chatbots that are read
//! back, stated once and proved.

use crate::bot::{bot_of_members, intents_of, BotView};
use crate::fields::{all_text, texts, texts_of, Members};
use crate::json::Json;
use crate::payload::{bot_members, intents_json, text_list_json};
use vstd::prelude::*;

verus! {

/// The names of the members of a chatbot body differ from each other.
proof fn lemma_member_names_differ()
    ensures
        "name"@ != "description"@,
        "name"@ != "industry"@,
        "name"@ != "flow"@,
        "name"@ != "intents"@,
        "name"@ != "webhook_url"@,
        "name"@ != "webhook_trigger_intents"@,
        "name"@ != "visible_on_community"@,
        "description"@ != "industry"@,
        "description"@ != "flow"@,
        "description"@ != "intents"@,
        "description"@ != "webhook_url"@,
        "description"@ != "webhook_trigger_intents"@,
        "description"@ != "visible_on_community"@,
        "industry"@ != "flow"@,
        "industry"@ != "intents"@,
        "industry"@ != "webhook_url"@,
        "industry"@ != "webhook_trigger_intents"@,
        "industry"@ != "visible_on_community"@,
        "flow"@ != "intents"@,
        "flow"@ != "webhook_url"@,
        "flow"@ != "webhook_trigger_intents"@,
        "flow"@ != "visible_on_community"@,
        "intents"@ != "webhook_url"@,
        "intents"@ != "webhook_trigger_intents"@,
        "intents"@ != "visible_on_community"@,
        "webhook_url"@ != "webhook_trigger_intents"@,
        "webhook_url"@ != "visible_on_community"@,
        "webhook_trigger_intents"@ != "visible_on_community"@,
{
    reveal_strlit("name");
    reveal_strlit("description");
    reveal_strlit("industry");
    reveal_strlit("flow");
    reveal_strlit("intents");
    reveal_strlit("webhook_url");
    reveal_strlit("webhook_trigger_intents");
    reveal_strlit("visible_on_community");
    assert("name"@.len() == 4 && "name"@[0] == 'n');
    assert("description"@.len() == 11 && "description"@[0] == 'd');
    assert("industry"@.len() == 8);
    assert("flow"@.len() == 4 && "flow"@[0] == 'f');
    assert("intents"@.len() == 7);
    assert("webhook_url"@.len() == 11 && "webhook_url"@[0] == 'w');
    assert("webhook_trigger_intents"@.len() == 23);
    assert("visible_on_community"@.len() == 20);
}

/// A body that is built from a name alone holds the name and nothing else.
pub proof fn lemma_name_only_body(name: Seq<char>)
    ensures
        bot_members(name, None, None, None, None, None, None, None) == Map::<
            Seq<char>,
            Json,
        >::empty().insert("name"@, Json::String(name)),
{
}

/// A body holds a member for the name and for each field that was given,
/// and for nothing else; no member of it is `null`.
pub proof fn lemma_body_holds_what_was_given(
    name: Seq<char>,
    description: Option<Seq<char>>,
    industry: Option<Seq<char>>,
    flow: Option<Members>,
    intents: Option<Map<Seq<char>, Seq<Seq<char>>>>,
    webhook_url: Option<Seq<char>>,
    webhook_trigger_intents: Option<Seq<Seq<char>>>,
    visible_on_community: Option<bool>,
)
    ensures
        forall|key: Seq<char>| #[trigger]
            bot_members(
                name,
                description,
                industry,
                flow,
                intents,
                webhook_url,
                webhook_trigger_intents,
                visible_on_community,
            ).contains_key(key) <==> {
                ||| key == "name"@
                ||| key == "description"@ && description is Some
                ||| key == "industry"@ && industry is Some
                ||| key == "flow"@ && flow is Some
                ||| key == "intents"@ && intents is Some
                ||| key == "webhook_url"@ && webhook_url is Some
                ||| key == "webhook_trigger_intents"@ && webhook_trigger_intents is Some
                ||| key == "visible_on_community"@ && visible_on_community is Some
            },
        forall|key: Seq<char>| #[trigger]
            bot_members(
                name,
                description,
                industry,
                flow,
                intents,
                webhook_url,
                webhook_trigger_intents,
                visible_on_community,
            ).contains_key(key) ==> !(bot_members(
                name,
                description,
                industry,
                flow,
                intents,
                webhook_url,
                webhook_trigger_intents,
                visible_on_community,
            )[key] is Null),
{
    lemma_member_names_differ();
}

/// A list of texts that is sent as a document is read back as it was.
pub proof fn lemma_text_list_reads_back(list: Seq<Seq<char>>, key: Seq<char>)
    ensures
        texts_of(text_list_json(list), key) == Ok::<Seq<Seq<char>>, Seq<char>>(list),
{
    let items = list.map_values(|text: Seq<char>| Json::String(text));
    assert(all_text(items));
    assert(texts(items) =~= list);
}

/// Intents that are sent as a document are read back as they were.
pub proof fn lemma_intents_read_back(intents: Map<Seq<char>, Seq<Seq<char>>>, key: Seq<char>)
    ensures
        intents_json(intents) matches Json::Object(members) && intents_of(members, key) == Ok::<
            Map<Seq<char>, Seq<Seq<char>>>,
            Seq<char>,
        >(intents),
{
    let members = intents.map_values(|phrases: Seq<Seq<char>>| text_list_json(phrases));
    assert forall|name: Seq<char>| members.contains_key(name) implies texts_of(
        #[trigger] members[name],
        key,
    ) == Ok::<Seq<Seq<char>>, Seq<char>>(intents[name]) by {
        lemma_text_list_reads_back(intents[name], key);
    }
    assert(members.map_values(|value: Json| texts_of(value, key)->Ok_0) =~= intents);
}

/// Sending a chatbot and reading it back yields what was sent: where the
/// reply to a request that replaces a chatbot holds, under the same names,
/// the members that the request held, the chatbot read from the reply has
/// the name that was sent and every other field that was given. The flow is
/// sent under `"flow"` and comes back under `"flows"`; it is read back as
/// sent where the reply holds it there.
pub proof fn lemma_update_reads_back(
    name: Seq<char>,
    description: Option<Seq<char>>,
    industry: Option<Seq<char>>,
    flow: Option<Members>,
    intents: Option<Map<Seq<char>, Seq<Seq<char>>>>,
    webhook_url: Option<Seq<char>>,
    webhook_trigger_intents: Option<Seq<Seq<char>>>,
    visible_on_community: Option<bool>,
    echoed: Members,
    bot: BotView,
)
    requires
        forall|key: Seq<char>|
            key != "flow"@ && #[trigger] bot_members(
                name,
                description,
                industry,
                flow,
                intents,
                webhook_url,
                webhook_trigger_intents,
                visible_on_community,
            ).contains_key(key) ==> echoed.contains_key(key) && echoed[key] == bot_members(
                name,
                description,
                industry,
                flow,
                intents,
                webhook_url,
                webhook_trigger_intents,
                visible_on_community,
            )[key],
        bot_of_members(echoed) == Ok::<BotView, Seq<char>>(bot),
    ensures
        bot.name == name,
        description matches Some(sent) ==> bot.description == sent,
        industry matches Some(sent) ==> bot.industry == sent,
        intents matches Some(sent) ==> bot.intents == sent,
        webhook_url matches Some(sent) ==> bot.webhook_url == sent,
        webhook_trigger_intents matches Some(sent) ==> bot.webhook_trigger_intents == sent,
        visible_on_community matches Some(sent) ==> bot.visible_on_community == sent,
        flow matches Some(sent) ==> (echoed.contains_key("flows"@) && echoed["flows"@]
            == Json::Object(sent) ==> bot.flows == sent),
{
    lemma_member_names_differ();
    let sent = bot_members(
        name,
        description,
        industry,
        flow,
        intents,
        webhook_url,
        webhook_trigger_intents,
        visible_on_community,
    );
    assert(sent.contains_key("name"@));
    if description is Some {
        assert(sent.contains_key("description"@));
    }
    if industry is Some {
        assert(sent.contains_key("industry"@));
    }
    if let Some(given) = intents {
        assert(sent.contains_key("intents"@));
        lemma_intents_read_back(given, "intents"@);
    }
    if webhook_url is Some {
        assert(sent.contains_key("webhook_url"@));
    }
    if let Some(given) = webhook_trigger_intents {
        assert(sent.contains_key("webhook_trigger_intents"@));
        lemma_text_list_reads_back(given, "webhook_trigger_intents"@);
    }
    if visible_on_community is Some {
        assert(sent.contains_key("visible_on_community"@));
    }
}

} // verus!
