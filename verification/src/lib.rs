//! Orchestration core of a conversational channel: conversation state,
//! bounded branch and worker tracking, status summaries and the merging of
//! completion events back into the conversation.

pub mod channel;
pub mod error;
pub mod event;
pub mod format;
pub mod ids;
pub mod laws;
pub mod message;
pub mod process;
pub mod state;
pub mod status;

pub use channel::{fallback_reply, retrigger_message, Channel, ChannelAction, ChannelInput, TurnPlan};
pub use error::{AgentError, CompletionError};
pub use event::ProcessEvent;
pub use format::{build_conversation_context, build_system_prompt, format_user_message, join};
pub use ids::{id_to_string, BranchId, ChannelId, ProcessId, WorkerId};
pub use message::{
    snapshot, InboundMessage, Message, MessageContent, Metadata, MetadataValue, OutboundResponse,
    Role, StatusUpdate, Timestamp,
};
pub use process::{Branch, BranchHandle, Worker, WorkerHandle};
pub use state::{spawn_branch_from_state, spawn_worker_from_state, ChannelConfig, ChannelState};
pub use status::{StatusBlock, StatusEntry};
