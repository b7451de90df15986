//! A verified multi-backend CLI adapter core: argument-list construction
//! for an external AI agent CLI, sentinel-based completion detection, the
//! streaming output classifier, and the pure core of the brainstorm
//! conversation driver.

pub mod adapter;
pub mod brainstorm;
pub mod text;

pub use adapter::CodexAdapter;
pub use adapter::CommandOptions;
pub use adapter::LineType;
pub use adapter::ParsedLine;
pub use brainstorm::AiBrainstormResponse;
pub use brainstorm::ConversationMessage;
pub use brainstorm::QuestionOption;
pub use brainstorm::extract_json;
