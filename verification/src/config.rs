//! The configuration operation and the static service guidance text.
//!
//! The adapter never mutates any configuration and never forwards a
//! supplied API key anywhere: the operation only returns guidance text
//! pointing the caller at the `GOOGLE_API_KEY` environment variable and
//! the `--model` flag.

use vstd::prelude::*;

verus! {

/// The guidance returned when no API key is supplied.
pub open spec fn config_guide_text() -> Seq<char> {
    "Gemini CLI configuration:\n- API key: Set via GOOGLE_API_KEY environment variable\n- Model: Use --model flag (default: gemini-2.5-pro)"@
}

/// The note returned when an API key is supplied: the key must be set via
/// the environment variable instead, and its value is never repeated.
pub open spec fn config_keyed_text() -> Seq<char> {
    "Note: Gemini API key should be set via GOOGLE_API_KEY environment variable"@
}

/// The configuration response: one of two fixed texts, chosen only by
/// whether a key was supplied, never by what the key is.
pub open spec fn config_response(api_key: Option<Seq<char>>) -> Seq<char> {
    match api_key {
        Option::Some(_) => config_keyed_text(),
        Option::None => config_guide_text(),
    }
}

/// The supplied key's value, if any, as a sequence of characters.
pub open spec fn key_view(api_key: &Option<String>) -> Option<Seq<char>> {
    match api_key {
        Option::Some(k) => Option::Some(k@),
        Option::None => Option::None,
    }
}

/// Answer a configuration call. Nothing is mutated and nothing is
/// forwarded to the external tool; the result is fixed guidance text.
pub fn gemini_config(api_key: &Option<String>) -> (r: String)
    ensures
        r@ == config_response(key_view(api_key)),
{
    match api_key {
        Option::Some(_) => {
            "Note: Gemini API key should be set via GOOGLE_API_KEY environment variable".to_owned()
        },
        Option::None => {
            "Gemini CLI configuration:\n- API key: Set via GOOGLE_API_KEY environment variable\n- Model: Use --model flag (default: gemini-2.5-pro)".to_owned()
        },
    }
}

/// The configuration response never depends on the supplied key's value:
/// any two supplied keys draw the identical response, so the key cannot
/// appear in it unless it already stood in the fixed text.
pub proof fn lemma_config_ignores_key_value(key_a: Seq<char>, key_b: Seq<char>)
    ensures
        config_response(Option::Some(key_a)) == config_response(Option::Some(key_b)),
{
}

/// The free-form usage guide returned verbatim to the protocol runtime's
/// introspection query.
pub open spec fn instructions_text() -> Seq<char> {
    "Gemini CLI MCP server - access Google's Gemini models through the gemini command-line tool.\n\n## Usage\n- gemini_prompt: send a prompt to Gemini; name file paths in the prompt and the tool reads them itself.\n- gemini_config: how to configure the tool (API key via GOOGLE_API_KEY, model via the --model flag).\n\n## Tips\n- Default model is gemini-2.5-pro; gemini-2.5-flash is faster for simple tasks.\n- Select a model per call with the optional model argument.\n"@
}

/// The static usage guide handed to the protocol runtime: fixed text,
/// no state, no side effects.
pub fn server_instructions() -> (r: String)
    ensures
        r@ == instructions_text(),
{
    "Gemini CLI MCP server - access Google's Gemini models through the gemini command-line tool.\n\n## Usage\n- gemini_prompt: send a prompt to Gemini; name file paths in the prompt and the tool reads them itself.\n- gemini_config: how to configure the tool (API key via GOOGLE_API_KEY, model via the --model flag).\n\n## Tips\n- Default model is gemini-2.5-pro; gemini-2.5-flash is faster for simple tasks.\n- Select a model per call with the optional model argument.\n".to_owned()
}

} // verus!
