//! Verified core of a small adapter that exposes the `gemini` command-line
//! tool over a structured tool-call protocol. The library builds the
//! argument list for each invocation, interprets the captured output of the
//! finished process, and produces the fixed configuration guidance text;
//! process spawning and the protocol transport live outside the library.

mod args;
mod config;
mod outcome;

pub use args::build_prompt_args;
pub use args::lemma_model_args_appended;
pub use args::lemma_prompt_only_args;
pub use args::model_view;
pub use args::prompt_arg_seq;
pub use args::PromptRequest;
pub use config::config_guide_text;
pub use config::config_keyed_text;
pub use config::config_response;
pub use config::gemini_config;
pub use config::instructions_text;
pub use config::key_view;
pub use config::lemma_config_ignores_key_value;
pub use config::server_instructions;
pub use outcome::ascii_bytes;
pub use outcome::chars_of;
pub use outcome::interpret_output;
pub use outcome::is_ws_byte;
pub use outcome::lemma_outputs_stay_apart;
pub use outcome::lossy_text;
pub use outcome::run_outcome;
pub use outcome::trim_back;
pub use outcome::trim_bytes;
pub use outcome::trim_front;
pub use outcome::trimmed;
pub use outcome::GeminiError;
