//! Configuration resolution: reading the three configuration values out
//! of file text, layering environment overrides on top, and producing the
//! text a generation writes back to disk.

use vstd::prelude::*;
use vstd::string::StringExecFns;

use crate::errors::CliError;
use crate::json::{
    escaped, obj_get, parse_json_text, spec_escape, spec_fields_get, spec_obj_get, spec_parse_json,
    spec_str_of, str_of, JsonValue,
};

verus! {

/// The three values a run needs: the bearer credential, the system
/// instruction sent with every query, and the model identifier.
pub struct Configuration {
    pub api_key: String,
    pub prompt: String,
    pub model: String,
}

/// The configuration a parsed document holds, as the triple of its
/// `api_key`, `prompt` and `model` string fields — `None` where the
/// document is not an object holding all three as strings.
pub open spec fn spec_config_of(v: JsonValue) -> Option<(Seq<char>, Seq<char>, Seq<char>)> {
    match (spec_obj_get(v, "api_key"@), spec_obj_get(v, "prompt"@), spec_obj_get(v, "model"@)) {
        (Some(k), Some(p), Some(m)) => match (spec_str_of(k), spec_str_of(p), spec_str_of(m)) {
            (Some(ks), Some(ps), Some(ms)) => Some((ks, ps, ms)),
            _ => None,
        },
        _ => None,
    }
}

/// The system prompt a generated configuration starts with.
pub open spec fn spec_default_prompt() -> Seq<char> {
    "You are a personal assistant meant to help with using the CLI. You can only answer with the command that is the closest to what the user requires. The response mus be in plain text. You're not allowed to use any form of Markdown (e.g.: ```bash```). Also, if you don't know the command your answer must be: 'sorry, I can't help'."@
}

/// The model identifier a generated configuration starts with.
pub open spec fn spec_default_model() -> Seq<char> {
    "gpt-3.5-turbo"@
}

/// The default system prompt, as written by a generation.
pub fn default_prompt() -> (r: &'static str)
    ensures
        r@ == spec_default_prompt(),
{
    "You are a personal assistant meant to help with using the CLI. You can only answer with the command that is the closest to what the user requires. The response mus be in plain text. You're not allowed to use any form of Markdown (e.g.: ```bash```). Also, if you don't know the command your answer must be: 'sorry, I can't help'."
}

/// The default model identifier, as written by a generation.
pub fn default_model() -> (r: &'static str)
    ensures
        r@ == spec_default_model(),
{
    "gpt-3.5-turbo"
}

impl Configuration {
    /// All three fields are non-empty: what a configuration must satisfy
    /// before a request is built from it.
    pub open spec fn wf(self) -> bool {
        self.api_key@.len() > 0 && self.prompt@.len() > 0 && self.model@.len() > 0
    }

    /// Reads a configuration out of a parsed document: an object holding
    /// string fields `api_key`, `prompt` and `model`. Anything else is a
    /// malformed configuration.
    pub fn from_json_value(v: &JsonValue) -> (r: Result<Configuration, CliError>)
        ensures
            r is Ok <==> spec_config_of(*v) is Some,
            r is Ok ==> (r->Ok_0.api_key@, r->Ok_0.prompt@, r->Ok_0.model@) == spec_config_of(
                *v,
            )->0,
            r is Err ==> r->Err_0 is ConfigInvalid,
    {
        let k = match obj_get(v, "api_key") {
            Some(x) => x,
            None => {
                return Err(CliError::ConfigInvalid);
            },
        };
        let p = match obj_get(v, "prompt") {
            Some(x) => x,
            None => {
                return Err(CliError::ConfigInvalid);
            },
        };
        let m = match obj_get(v, "model") {
            Some(x) => x,
            None => {
                return Err(CliError::ConfigInvalid);
            },
        };
        let ks = match str_of(k) {
            Some(s) => s,
            None => {
                return Err(CliError::ConfigInvalid);
            },
        };
        let ps = match str_of(p) {
            Some(s) => s,
            None => {
                return Err(CliError::ConfigInvalid);
            },
        };
        let ms = match str_of(m) {
            Some(s) => s,
            None => {
                return Err(CliError::ConfigInvalid);
            },
        };
        Ok(Configuration { api_key: ks.clone(), prompt: ps.clone(), model: ms.clone() })
    }

    /// Reads a configuration out of raw file text. Text that is not
    /// well-formed JSON holding the three fields is a malformed
    /// configuration, and no other error comes out of here.
    pub fn from_json_text(text: &str) -> (r: Result<Configuration, CliError>)
        ensures
            r is Ok <==> (spec_parse_json(text@) is Some && spec_config_of(
                spec_parse_json(text@)->0,
            ) is Some),
            r is Ok ==> (r->Ok_0.api_key@, r->Ok_0.prompt@, r->Ok_0.model@) == spec_config_of(
                spec_parse_json(text@)->0,
            )->0,
            r is Err ==> r->Err_0 is ConfigInvalid,
    {
        match parse_json_text(text) {
            Some(v) => Configuration::from_json_value(&v),
            None => Err(CliError::ConfigInvalid),
        }
    }

    /// Lays environment overrides over a loaded configuration: a value
    /// that is present replaces the loaded field, an absent one leaves
    /// the loaded field as it was.
    pub fn with_overrides(
        self,
        api_key: Option<String>,
        prompt: Option<String>,
        model: Option<String>,
    ) -> (r: Configuration)
        ensures
            r.api_key@ == (match api_key {
                Some(k) => k@,
                None => self.api_key@,
            }),
            r.prompt@ == (match prompt {
                Some(p) => p@,
                None => self.prompt@,
            }),
            r.model@ == (match model {
                Some(m) => m@,
                None => self.model@,
            }),
    {
        let api_key = match api_key {
            Some(k) => k,
            None => self.api_key,
        };
        let prompt = match prompt {
            Some(p) => p,
            None => self.prompt,
        };
        let model = match model {
            Some(m) => m,
            None => self.model,
        };
        Configuration { api_key, prompt, model }
    }

    /// Resolves the configuration a run will use: the result of loading
    /// the file, with environment overrides laid on top. Where nothing
    /// loaded, the overrides must supply every field, else the load error
    /// stands.
    pub fn resolve(
        loaded: Result<Configuration, CliError>,
        api_key: Option<String>,
        prompt: Option<String>,
        model: Option<String>,
    ) -> (r: Result<Configuration, CliError>)
        ensures
            loaded is Ok ==> r is Ok && r->Ok_0.api_key@ == (match api_key {
                Some(k) => k@,
                None => loaded->Ok_0.api_key@,
            }) && r->Ok_0.prompt@ == (match prompt {
                Some(p) => p@,
                None => loaded->Ok_0.prompt@,
            }) && r->Ok_0.model@ == (match model {
                Some(m) => m@,
                None => loaded->Ok_0.model@,
            }),
            loaded is Err && api_key is Some && prompt is Some && model is Some ==> r is Ok
                && r->Ok_0.api_key@ == api_key->0@ && r->Ok_0.prompt@ == prompt->0@
                && r->Ok_0.model@ == model->0@,
            loaded is Err && !(api_key is Some && prompt is Some && model is Some) ==> r is Err
                && r->Err_0 == loaded->Err_0,
    {
        match loaded {
            Ok(c) => Ok(c.with_overrides(api_key, prompt, model)),
            Err(e) => match (api_key, prompt, model) {
                (Some(k), Some(p), Some(m)) => Ok(
                    Configuration { api_key: k, prompt: p, model: m },
                ),
                _ => Err(e),
            },
        }
    }
}

/// The text a generation writes: a pretty-printed object holding the
/// supplied key and the default prompt and model, and nothing else.
pub open spec fn spec_generated_text(api_key: Seq<char>) -> Seq<char> {
    "{\n  \"api_key\": \""@ + spec_escape(api_key) + "\",\n  \"prompt\": \""@ + spec_escape(
        spec_default_prompt(),
    ) + "\",\n  \"model\": \""@ + spec_escape(spec_default_model()) + "\"\n}"@
}

/// Builds the configuration file text for a generation. The caller-given
/// key is the only part of it that is not fixed.
pub fn generated_json_text(api_key: &str) -> (r: String)
    ensures
        r@ == spec_generated_text(api_key@),
{
    let mut r = String::from_str("{\n  \"api_key\": \"");
    let ek = escaped(api_key);
    r.append(ek.as_str());
    r.append("\",\n  \"prompt\": \"");
    let ep = escaped(default_prompt());
    r.append(ep.as_str());
    r.append("\",\n  \"model\": \"");
    let em = escaped(default_model());
    r.append(em.as_str());
    r.append("\"\n}");
    proof {
        assert(r@ =~= spec_generated_text(api_key@));
    }
    r
}

/// The document a generation writes, in the library's model: its three
/// fields are the supplied key and the two defaults.
pub fn generated_config_value(api_key: &str) -> (v: JsonValue)
    ensures
        spec_config_of(v) == Some((api_key@, spec_default_prompt(), spec_default_model())),
        v matches JsonValue::Obj(fields) && fields@.len() == 3 && fields@[0].0@ == "api_key"@
            && fields@[1].0@ == "prompt"@ && fields@[2].0@ == "model"@,
{
    let mut fields: Vec<(String, JsonValue)> = Vec::new();
    fields.push((String::from_str("api_key"), JsonValue::Str(String::from_str(api_key))));
    fields.push(
        (String::from_str("prompt"), JsonValue::Str(String::from_str(default_prompt()))),
    );
    fields.push((String::from_str("model"), JsonValue::Str(String::from_str(default_model()))));
    let v = JsonValue::Obj(fields);
    proof {
        reveal_strlit("api_key");
        reveal_strlit("prompt");
        reveal_strlit("model");
        reveal_with_fuel(spec_fields_get, 4);
        let fs = v->Obj_0@;
        assert(fs.len() == 3);
        assert(fs.drop_first() =~= seq![fs[1], fs[2]]);
        assert(fs.drop_first().drop_first() =~= seq![fs[2]]);
        assert(fs[0].0@ == "api_key"@);
        assert(("api_key"@).len() == 7 && ("prompt"@).len() == 6 && ("model"@).len() == 5);
        assert("api_key"@ != "prompt"@ && "api_key"@ != "model"@ && "prompt"@ != "model"@);
        assert(spec_fields_get(fs, "api_key"@) == Some(fs[0].1));
        assert(spec_fields_get(fs, "prompt"@) == Some(fs[1].1));
        assert(spec_fields_get(fs, "model"@) == Some(fs[2].1));
        assert(spec_str_of(fs[0].1) == Some(api_key@));
        assert(spec_str_of(fs[1].1) == Some(spec_default_prompt()));
        assert(spec_str_of(fs[2].1) == Some(spec_default_model()));
        assert(spec_config_of(v) == Some(
            (api_key@, spec_default_prompt(), spec_default_model()),
        ));
    }
    v
}

/// Law: generation is overwriting, never merging. The texts written for
/// two keys are one fixed template around each key: the part before and
/// the part after the escaped key are the same whatever the key, so a
/// second generation leaves nothing of the first key's text behind.
pub proof fn lemma_generation_overwrites(k1: Seq<char>, k2: Seq<char>)
    ensures
        exists|pre: Seq<char>, post: Seq<char>|
            #[trigger] (pre + spec_escape(k1) + post) == spec_generated_text(k1) && (pre
                + spec_escape(k2) + post) == spec_generated_text(k2),
{
    let pre = "{\n  \"api_key\": \""@;
    let post = "\",\n  \"prompt\": \""@ + spec_escape(spec_default_prompt())
        + "\",\n  \"model\": \""@ + spec_escape(spec_default_model()) + "\"\n}"@;
    assert((pre + spec_escape(k1) + post) =~= spec_generated_text(k1));
    assert((pre + spec_escape(k2) + post) =~= spec_generated_text(k2));
}

} // verus!
