use vstd::prelude::*;
use crate::json::Json;

verus! {

/// A tool call that a model asked for.
pub struct ToolCall {
    pub id: String,
    pub name: String,
    pub args: Json,
}

pub struct AIMessage {
    pub content: String,
    pub tool_calls: Vec<ToolCall>,
}

pub struct ToolMessage {
    pub tool_call_id: String,
    pub content: String,
    pub name: String,
}

pub struct HumanMessage {
    pub content: String,
}

pub struct SystemMessage {
    pub content: String,
}

/// A chat message, by its role.
pub enum Message {
    AI(AIMessage),
    Tool(ToolMessage),
    Human(HumanMessage),
    System(SystemMessage),
}

} // verus!
