//! The single chat-completion round trip: building the request body and
//! headers from a resolved configuration, and extracting the reply text
//! from the response document.

use vstd::prelude::*;
use vstd::string::StringExecFns;

use crate::config::Configuration;
use crate::errors::CliError;
use crate::json::{
    arr_at, json_text, obj_get, parse_json_text, spec_arr_at, spec_fields_get, spec_json_text,
    spec_obj_get, spec_parse_json, spec_str_of, str_of, JsonValue,
};

verus! {

/// The model identifier a request document names.
pub open spec fn spec_model_of(v: JsonValue) -> Option<Seq<char>> {
    match spec_obj_get(v, "model"@) {
        Some(m) => spec_str_of(m),
        None => None,
    }
}

/// The (role, content) pair of one message document.
pub open spec fn spec_message_of(v: JsonValue) -> Option<(Seq<char>, Seq<char>)> {
    match (spec_obj_get(v, "role"@), spec_obj_get(v, "content"@)) {
        (Some(r), Some(c)) => match (spec_str_of(r), spec_str_of(c)) {
            (Some(rs), Some(cs)) => Some((rs, cs)),
            _ => None,
        },
        _ => None,
    }
}

/// How many messages a request document carries.
pub open spec fn spec_message_count(v: JsonValue) -> Option<int> {
    match spec_obj_get(v, "messages"@) {
        Some(ms) => match ms {
            JsonValue::Arr(items) => Some(items@.len() as int),
            _ => None,
        },
        None => None,
    }
}

/// The (role, content) pair of message `i` of a request document.
pub open spec fn spec_message_at(v: JsonValue, i: int) -> Option<(Seq<char>, Seq<char>)> {
    match spec_obj_get(v, "messages"@) {
        Some(ms) => match spec_arr_at(ms, i) {
            Some(m) => spec_message_of(m),
            None => None,
        },
        None => None,
    }
}

/// One message document: an object pairing a role with its content.
fn message_value(role: &str, content: &str) -> (v: JsonValue)
    ensures
        spec_message_of(v) == Some((role@, content@)),
{
    let mut fields: Vec<(String, JsonValue)> = Vec::new();
    fields.push((String::from_str("role"), JsonValue::Str(String::from_str(role))));
    fields.push((String::from_str("content"), JsonValue::Str(String::from_str(content))));
    let v = JsonValue::Obj(fields);
    proof {
        reveal_strlit("role");
        reveal_strlit("content");
        reveal_with_fuel(spec_fields_get, 3);
        let fs = v->Obj_0@;
        assert(fs.drop_first() =~= seq![fs[1]]);
        assert(("role"@).len() == 4 && ("content"@).len() == 7);
        assert(spec_message_of(v) == Some((role@, content@)));
    }
    v
}

/// The request document sent for one run: the configuration's model, and
/// exactly two messages — the configuration's system prompt first, the
/// user's prompt second, both verbatim.
pub fn request_value(config: &Configuration, user_prompt: &str) -> (v: JsonValue)
    ensures
        spec_model_of(v) == Some(config.model@),
        spec_message_count(v) == Some(2int),
        spec_message_at(v, 0) == Some(("system"@, config.prompt@)),
        spec_message_at(v, 1) == Some(("user"@, user_prompt@)),
        v matches JsonValue::Obj(fields) && fields@.len() == 2 && fields@[0].0@ == "model"@
            && fields@[1].0@ == "messages"@,
{
    let system = message_value("system", config.prompt.as_str());
    let user = message_value("user", user_prompt);
    let mut messages: Vec<JsonValue> = Vec::new();
    messages.push(system);
    messages.push(user);
    let mut fields: Vec<(String, JsonValue)> = Vec::new();
    fields.push((String::from_str("model"), JsonValue::Str(config.model.clone())));
    fields.push((String::from_str("messages"), JsonValue::Arr(messages)));
    let v = JsonValue::Obj(fields);
    proof {
        reveal_strlit("model");
        reveal_strlit("messages");
        reveal_with_fuel(spec_fields_get, 3);
        let fs = v->Obj_0@;
        assert(fs.drop_first() =~= seq![fs[1]]);
        assert(("model"@).len() == 5 && ("messages"@).len() == 8);
        assert(spec_model_of(v) == Some(config.model@));
        assert(spec_message_count(v) == Some(2int));
        assert(spec_message_at(v, 0) == Some(("system"@, config.prompt@)));
        assert(spec_message_at(v, 1) == Some(("user"@, user_prompt@)));
    }
    v
}

/// Builds the JSON body of the chat-completion request: the serialized
/// text of a document carrying the configuration's model and exactly the
/// two messages, system then user.
pub fn build_request_body(config: &Configuration, user_prompt: &str) -> (r: String)
    ensures
        exists|v: JsonValue|
            r@ == #[trigger] spec_json_text(v) && spec_model_of(v) == Some(config.model@)
                && spec_message_count(v) == Some(2int) && spec_message_at(v, 0) == Some(
                ("system"@, config.prompt@),
            ) && spec_message_at(v, 1) == Some(("user"@, user_prompt@)),
{
    let v = request_value(config, user_prompt);
    let r = json_text(&v);
    proof {
        assert(r@ == spec_json_text(v) && spec_model_of(v) == Some(config.model@)
            && spec_message_count(v) == Some(2int) && spec_message_at(v, 0) == Some(
            ("system"@, config.prompt@),
        ) && spec_message_at(v, 1) == Some(("user"@, user_prompt@)));
    }
    r
}

/// The value of the `Authorization` header: the word `Bearer`, a space,
/// and the configuration's key.
pub fn bearer_token(config: &Configuration) -> (r: String)
    ensures
        r@ == "Bearer "@ + config.api_key@,
{
    let mut r = String::from_str("Bearer ");
    r.append(config.api_key.as_str());
    r
}

/// The fixed chat-completions endpoint requests go to.
pub fn endpoint_url() -> (r: &'static str)
    ensures
        r@ == "https://api.openai.com/v1/chat/completions"@,
{
    "https://api.openai.com/v1/chat/completions"
}

/// The reply a response document carries at `choices[0].message.content`,
/// if it carries one there.
pub open spec fn spec_reply_of(v: JsonValue) -> Option<Seq<char>> {
    match spec_obj_get(v, "choices"@) {
        Some(cs) => match spec_arr_at(cs, 0) {
            Some(c0) => match spec_obj_get(c0, "message"@) {
                Some(m) => match spec_obj_get(m, "content"@) {
                    Some(c) => spec_str_of(c),
                    None => None,
                },
                None => None,
            },
            None => None,
        },
        None => None,
    }
}

/// The reply a raw response text yields: parse it, then follow the fixed
/// path `choices[0].message.content`.
pub open spec fn spec_extract_reply(text: Seq<char>) -> Option<Seq<char>> {
    match spec_parse_json(text) {
        Some(v) => spec_reply_of(v),
        None => None,
    }
}

/// Extracts the reply from a raw response body. It succeeds exactly on
/// bodies that parse and hold a string at `choices[0].message.content`;
/// every other body is a response-format failure.
pub fn extract_reply(text: &str) -> (r: Result<String, CliError>)
    ensures
        r is Ok <==> spec_extract_reply(text@) is Some,
        r is Ok ==> r->Ok_0@ == spec_extract_reply(text@)->0,
        r is Err ==> r->Err_0 is ResponseFormat,
{
    let v = match parse_json_text(text) {
        Some(v) => v,
        None => {
            return Err(CliError::ResponseFormat);
        },
    };
    let cs = match obj_get(&v, "choices") {
        Some(x) => x,
        None => {
            return Err(CliError::ResponseFormat);
        },
    };
    let c0 = match arr_at(cs, 0) {
        Some(x) => x,
        None => {
            return Err(CliError::ResponseFormat);
        },
    };
    let m = match obj_get(c0, "message") {
        Some(x) => x,
        None => {
            return Err(CliError::ResponseFormat);
        },
    };
    let c = match obj_get(m, "content") {
        Some(x) => x,
        None => {
            return Err(CliError::ResponseFormat);
        },
    };
    match str_of(c) {
        Some(s) => Ok(s.clone()),
        None => Err(CliError::ResponseFormat),
    }
}

} // verus!
