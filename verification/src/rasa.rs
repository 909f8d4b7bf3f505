//! The answers of the Rasa action endpoints: `/intent` accepts or refuses
//! the next action of a Rasa conversation, `/rasa` maps the latest intent to
//! an action on the domain expert.

use vstd::prelude::*;
use crate::text::{same_text, concat3};
use crate::commands::owned;

verus! {

/// A security policy rule: a keyword, what it matches, and a pass mark.
pub struct Policy {
    pub keyword: String,
    pub _match: String,
    pub pass: u64,
}

/// What a JSON document holds at a JSON pointer.
pub enum JsonField {
    /// The bytes are not a JSON document.
    Unparsable,
    /// Nothing is found at the pointer.
    Missing,
    /// `null`.
    Null,
    /// A boolean.
    Bool(bool),
    /// A number.
    Number,
    /// A string.
    Text(String),
    /// An array.
    Array,
    /// An object.
    Object,
}

/// What a JSON document holds at a JSON pointer, with a string taken as
/// its characters.
pub enum JsonFound {
    Unparsable,
    Missing,
    Null,
    Bool(bool),
    Number,
    Text(Seq<char>),
    Array,
    Object,
}

impl View for JsonField {
    type V = JsonFound;

    open spec fn view(&self) -> JsonFound {
        match self {
            JsonField::Unparsable => JsonFound::Unparsable,
            JsonField::Missing => JsonFound::Missing,
            JsonField::Null => JsonFound::Null,
            JsonField::Bool(b) => JsonFound::Bool(*b),
            JsonField::Number => JsonFound::Number,
            JsonField::Text(s) => JsonFound::Text(s@),
            JsonField::Array => JsonFound::Array,
            JsonField::Object => JsonFound::Object,
        }
    }
}

/// What `serde_json` finds in `body` at the JSON pointer `pointer`.
pub uninterp spec fn json_field(body: Seq<u8>, pointer: Seq<char>) -> JsonFound;

/// Parses `body` with `serde_json::from_slice` into a `serde_json::Value`
/// and looks `pointer` up with `Value::pointer` (RFC 6901: `/`-separated
/// object keys or array indices), then tells the `Value` variants apart:
/// `Unparsable` on a parse error, `Missing` where `pointer` gives nothing.
/// The outcome is named `json_field` of the arguments; nothing more is
/// stated of it.
#[verifier::external_body]
pub(crate) fn json_at(body: &[u8], pointer: &str) -> (res: JsonField)
    ensures
        res@ == json_field(body@, pointer@),
{
    let value: serde_json::Value = match serde_json::from_slice(body) {
        Ok(v) => v,
        Err(_) => return JsonField::Unparsable,
    };
    match value.pointer(pointer) {
        None => JsonField::Missing,
        Some(serde_json::Value::Null) => JsonField::Null,
        Some(serde_json::Value::Bool(b)) => JsonField::Bool(*b),
        Some(serde_json::Value::Number(_)) => JsonField::Number,
        Some(serde_json::Value::String(s)) => JsonField::Text(s.clone()),
        Some(serde_json::Value::Array(_)) => JsonField::Array,
        Some(serde_json::Value::Object(_)) => JsonField::Object,
    }
}

/// A message for the Rasa user.
pub struct Utterance {
    pub template: String,
    pub text: String,
}

/// The answer to a Rasa action request.
pub enum IntentReply {
    /// `200 OK` with a JSON body of no events and this one response.
    Accepted(Utterance),
    /// `406 Not Acceptable` with this text as body.
    Rejected(String),
}

/// What `/intent` does next.
pub enum IntentStep {
    /// The slice was asked for: the answer reports the deployment state,
    /// which the domain expert gives (see `slice_reply`).
    NeedSliceState,
    /// The answer.
    Reply(IntentReply),
}

/// The answer is a refusal with `text`.
pub open spec fn is_rejection(r: IntentReply, text: Seq<char>) -> bool {
    r matches IntentReply::Rejected(m) && m@ == text
}

/// The answer accepts with the utterance `text`.
pub open spec fn is_acceptance(r: IntentReply, text: Seq<char>) -> bool {
    r matches IntentReply::Accepted(u) && u.template@ == "utter_message"@ && u.text@ == text
}

/// Whether `field` is one that `/intent` answers instead of failing on.
pub open spec fn answerable(field: JsonFound) -> bool {
    !(field is Unparsable) && !(field is Missing)
}

/// What `/intent` does with the `next_action` it found: `null` is refused
/// as missing data; the slice action needs the deployment state; the
/// confirmation is accepted; any other string, and any other kind of value,
/// is refused as badly formed.
pub open spec fn intent_step_spec(field: JsonFound, res: IntentStep) -> bool {
    match field {
        JsonFound::Null => res matches IntentStep::Reply(r) && is_rejection(r, "Error: intent data missing"@),
        JsonFound::Text(s) => if s == "action_wodan_slice"@ {
            res is NeedSliceState
        } else if s == "action_wodan_confirm"@ {
            res matches IntentStep::Reply(r) && is_acceptance(r, "Intent accepted"@)
        } else {
            res matches IntentStep::Reply(r) && is_rejection(r, "Error: intent format incorrect"@)
        },
        _ => res matches IntentStep::Reply(r) && is_rejection(r, "Error: intent format incorrect"@),
    }
}

fn rejection(text: &str) -> (res: IntentStep)
    ensures
        res matches IntentStep::Reply(r) && is_rejection(r, text@),
{
    IntentStep::Reply(IntentReply::Rejected(owned(text)))
}

/// Decides the answer of `/intent` from the `next_action` of the request.
pub fn next_action_step(field: &JsonField) -> (res: IntentStep)
    requires
        answerable(field@),
    ensures
        intent_step_spec(field@, res),
{
    match field {
        JsonField::Null => rejection("Error: intent data missing"),
        JsonField::Text(s) => {
            if same_text(s.as_str(), "action_wodan_slice") {
                IntentStep::NeedSliceState
            } else if same_text(s.as_str(), "action_wodan_confirm") {
                IntentStep::Reply(
                    IntentReply::Accepted(
                        Utterance { template: owned("utter_message"), text: owned("Intent accepted") },
                    ),
                )
            } else {
                rejection("Error: intent format incorrect")
            }
        },
        _ => rejection("Error: intent format incorrect"),
    }
}

/// The JSON pointer of the next action in a Rasa action request.
pub open spec fn next_action_pointer() -> Seq<char> {
    "/next_action"@
}

/// Answers a Rasa action request posted to `/intent`, given its body. The
/// body must be a JSON object with a `next_action` key (elsewhere the
/// request fails, see `try_post_intent`).
pub fn post_intent(body: &[u8]) -> (res: IntentStep)
    requires
        answerable(json_field(body@, next_action_pointer())),
    ensures
        intent_step_spec(json_field(body@, next_action_pointer()), res),
{
    let field = json_at(body, "/next_action");
    next_action_step(&field)
}

/// Answers a request posted to `/intent`, or gives `None` for a body that
/// is not JSON, not an object, or lacks `next_action`, on which the request
/// fails.
pub fn try_post_intent(body: &[u8]) -> (res: Option<IntentStep>)
    ensures
        match res {
            Some(step) => answerable(json_field(body@, next_action_pointer())) && intent_step_spec(
                json_field(body@, next_action_pointer()),
                step,
            ),
            None => !answerable(json_field(body@, next_action_pointer())),
        },
{
    let field = json_at(body, "/next_action");
    match field {
        JsonField::Unparsable => None,
        JsonField::Missing => None,
        _ => Some(post_intent(body)),
    }
}

/// The report of the deployment state: a header, then one tab-indented
/// `key: value` line per entry.
pub open spec fn slice_message(state: Seq<(Seq<char>, Seq<char>)>) -> Seq<char>
    decreases state.len(),
{
    if state.len() == 0 {
        "Intent Accepted!\nDeployment Location: PM1_metroUK11\nState: \n"@
    } else {
        slice_message(state.drop_last()) + "\t"@ + state.last().0 + ": "@ + state.last().1 + "\n"@
    }
}

/// The answer to the slice action: accepted, reporting the deployment state
/// that the domain expert gave.
pub fn slice_reply(state: &Vec<(String, String)>) -> (res: IntentReply)
    ensures
        is_acceptance(res, slice_message(state.deep_view())),
{
    let ghost sv = state.deep_view();
    let mut message = owned("Intent Accepted!\nDeployment Location: PM1_metroUK11\nState: \n");
    let mut i: usize = 0;
    assert(sv.take(0) =~= Seq::<(Seq<char>, Seq<char>)>::empty());
    while i < state.len()
        invariant
            sv == state.deep_view(),
            i <= state.len(),
            message@ == slice_message(sv.take(i as int)),
        decreases state.len() - i,
    {
        let (key, value) = &state[i];
        let line = concat3("\t", key.as_str(), ": ");
        message.append(line.as_str());
        message.append(value.as_str());
        message.append("\n");
        assert(sv.take(i + 1).drop_last() =~= sv.take(i as int));
        assert(sv.take(i + 1).last() == (key@, value@));
        i = i + 1;
    }
    assert(sv.take(i as int) =~= sv);
    IntentReply::Accepted(Utterance { template: owned("utter_message"), text: message })
}

/// Law: what `/intent` answers for each `next_action`: `null` is refused
/// with "Error: intent data missing"; `action_wodan_confirm` is accepted
/// with the utterance "Intent accepted"; `action_wodan_slice` needs the
/// deployment state; every other string and every other kind of value is
/// refused with "Error: intent format incorrect".
pub proof fn lemma_intent_answers(field: JsonFound, res: IntentStep)
    requires
        intent_step_spec(field, res),
    ensures
        field is Null ==> (res matches IntentStep::Reply(IntentReply::Rejected(m)) && m@
            == "Error: intent data missing"@),
        field == JsonFound::Text("action_wodan_confirm"@) ==> (res matches IntentStep::Reply(
            IntentReply::Accepted(u),
        ) && u.template@ == "utter_message"@ && u.text@ == "Intent accepted"@),
        field == JsonFound::Text("action_wodan_slice"@) ==> res is NeedSliceState,
        (field is Text && field != JsonFound::Text("action_wodan_confirm"@) && field != JsonFound::Text(
            "action_wodan_slice"@,
        )) || field is Bool || field is Number || field is Array || field is Object ==> (res matches IntentStep::Reply(
            IntentReply::Rejected(m),
        ) && m@ == "Error: intent format incorrect"@),
{
    reveal_strlit("action_wodan_confirm");
    reveal_strlit("action_wodan_slice");
    assert("action_wodan_confirm"@.len() != "action_wodan_slice"@.len());
}

/// Law: the intents `validate`, `change` and `heal` ask for validation, a
/// change and healing; every other name asks for nothing.
pub proof fn lemma_rasa_commands(name: Seq<char>)
    ensures
        name == "validate"@ ==> rasa_command_spec(name) == RasaCommand::Validate,
        name == "change"@ ==> rasa_command_spec(name) == RasaCommand::Change,
        name == "heal"@ ==> rasa_command_spec(name) == RasaCommand::Heal,
        name != "validate"@ && name != "change"@ && name != "heal"@ ==> rasa_command_spec(name)
            == RasaCommand::NoAction,
{
    reveal_strlit("validate");
    reveal_strlit("change");
    reveal_strlit("heal");
    assert("validate"@.len() != "change"@.len());
    assert("validate"@.len() != "heal"@.len());
    assert("change"@.len() != "heal"@.len());
}

/// The action on the domain expert that the latest intent asks for.
pub enum RasaCommand {
    Validate,
    Change,
    Heal,
    NoAction,
}

/// `validate`, `change` and `heal` name their actions; any other intent
/// asks for none.
pub open spec fn rasa_command_spec(name: Seq<char>) -> RasaCommand {
    if name == "validate"@ {
        RasaCommand::Validate
    } else if name == "change"@ {
        RasaCommand::Change
    } else if name == "heal"@ {
        RasaCommand::Heal
    } else {
        RasaCommand::NoAction
    }
}

/// Maps the name of the latest intent to its action.
pub fn rasa_command(name: &str) -> (res: RasaCommand)
    ensures
        res == rasa_command_spec(name@),
{
    if same_text(name, "validate") {
        RasaCommand::Validate
    } else if same_text(name, "change") {
        RasaCommand::Change
    } else if same_text(name, "heal") {
        RasaCommand::Heal
    } else {
        RasaCommand::NoAction
    }
}

/// The JSON pointer of the latest intent's name in a Rasa tracker request.
pub open spec fn intent_name_pointer() -> Seq<char> {
    "/tracker/latest_message/intent/name"@
}

/// Decides what a request posted to `/rasa` asks of the domain expert,
/// given its body. The body must hold a string at
/// `tracker.latest_message.intent.name` (elsewhere the request fails, see
/// `try_rasa`). The answer is `200 OK` in every case.
pub fn rasa(body: &[u8]) -> (res: RasaCommand)
    requires
        json_field(body@, intent_name_pointer()) is Text,
    ensures
        res == rasa_command_spec(json_field(body@, intent_name_pointer())->Text_0),
{
    let field = json_at(body, "/tracker/latest_message/intent/name");
    match field {
        JsonField::Text(name) => rasa_command(name.as_str()),
        _ => RasaCommand::NoAction,
    }
}

/// Decides what a request posted to `/rasa` asks, or gives `None` when the
/// body holds no string at `tracker.latest_message.intent.name`, on which
/// the request fails.
pub fn try_rasa(body: &[u8]) -> (res: Option<RasaCommand>)
    ensures
        match json_field(body@, intent_name_pointer()) {
            JsonFound::Text(name) => res == Some(rasa_command_spec(name)),
            _ => res is None,
        },
{
    let field = json_at(body, "/tracker/latest_message/intent/name");
    match field {
        JsonField::Text(_) => Some(rasa(body)),
        _ => None,
    }
}

} // verus!
