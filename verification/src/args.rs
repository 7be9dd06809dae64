//! Building the command-line argument list for one invocation of the
//! external tool from one prompt request.

use vstd::prelude::*;

verus! {

/// One prompt request as delivered by the protocol runtime.
///
/// `max_tokens` is accepted for schema compatibility but never forwarded:
/// the external tool has no matching flag, so the adapter drops it (the
/// same holds for the sampling temperature, which the surrounding process
/// accepts and drops before the request reaches the library).
#[derive(Debug)]
pub struct PromptRequest {
    pub prompt: String,
    pub model: Option<String>,
    pub max_tokens: Option<u32>,
}

/// The model name as a sequence of characters, if one was given.
pub open spec fn model_view(model: &Option<String>) -> Option<Seq<char>> {
    match model {
        Option::Some(m) => Option::Some(m@),
        Option::None => Option::None,
    }
}

/// The exact argument list for a prompt request: `--prompt` with the prompt
/// text, then `--model` with the model name if and only if one was given.
/// No other flag is ever produced.
pub open spec fn prompt_arg_seq(prompt: Seq<char>, model: Option<Seq<char>>) -> Seq<Seq<char>> {
    match model {
        Option::Some(m) => seq!["--prompt"@, prompt, "--model"@, m],
        Option::None => seq!["--prompt"@, prompt],
    }
}

/// Build the argument vector handed to the external tool for `req`.
pub fn build_prompt_args(req: &PromptRequest) -> (args: Vec<String>)
    ensures
        args@.map_values(|s: String| s@) == prompt_arg_seq(req.prompt@, model_view(&req.model)),
        args@.len() == prompt_arg_seq(req.prompt@, model_view(&req.model)).len(),
{
    let mut args: Vec<String> = Vec::new();
    args.push("--prompt".to_owned());
    args.push(req.prompt.clone());
    match &req.model {
        Option::Some(m) => {
            args.push("--model".to_owned());
            args.push(m.clone());
            proof {
                assert(args@.map_values(|s: String| s@) =~= prompt_arg_seq(
                    req.prompt@,
                    model_view(&req.model),
                ));
            }
        },
        Option::None => {
            proof {
                assert(args@.map_values(|s: String| s@) =~= prompt_arg_seq(
                    req.prompt@,
                    model_view(&req.model),
                ));
            }
        },
    }
    args
}

/// With only the prompt set, the argument list is exactly
/// `["--prompt", prompt]`: no other flag is appended.
pub proof fn lemma_prompt_only_args(prompt: Seq<char>)
    ensures
        prompt_arg_seq(prompt, Option::None) == seq!["--prompt"@, prompt],
        prompt_arg_seq(prompt, Option::None).len() == 2,
{
}

/// With a model set, the argument list is the prompt-only list with
/// `["--model", model]` appended after it, and nothing else.
pub proof fn lemma_model_args_appended(prompt: Seq<char>, model: Seq<char>)
    ensures
        prompt_arg_seq(prompt, Option::Some(model)) == prompt_arg_seq(prompt, Option::None)
            + seq!["--model"@, model],
        prompt_arg_seq(prompt, Option::Some(model)).len() == 4,
{
    assert(prompt_arg_seq(prompt, Option::Some(model)) =~= prompt_arg_seq(prompt, Option::None)
        + seq!["--model"@, model]);
}

} // verus!
