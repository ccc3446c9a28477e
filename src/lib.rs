//! Decision logic of an agent that polls a controller for natural-language
//! instructions, has a language model turn each one into a Lua script, runs
//! the script and reports its output back.
//!
//! The network, the completion service and the interpreter stay outside this
//! crate: its functions take what those produced as plain values and say what
//! to do next.

pub mod generator;
pub mod retry;
pub mod scheduler;
pub mod text;

pub use text::{bearer_credential, endpoint_url, to_decimal};
pub use retry::{AttemptError, ReportPayload, RetryController, MAX_ATTEMPTS};
pub use generator::{chat_exchange, first_choice_script, ChatMessage, ChatRole, COMPLETION_MODEL, SYSTEM_PROMPT};
pub use scheduler::{instruction_from_response, jitter_candidates, next_sleep_seconds, FetchError, PollDecision, Scheduler, INSTRUCTION_ROUTE, NOT_FOUND, REPLY_ROUTE};
