//! Orchestration core of an automation pipeline that turns a natural-language
//! product request into generated backend source code.
//!
//! The crate holds the verified decision logic: the shared project record, the
//! role-agent state machines, the gateway retry rule, and the filters applied
//! to probed URLs and extracted REST endpoints.  Terminal, file, process and
//! network work is performed by a thin unverified driver that feeds plain
//! values into the step functions defined here.

pub mod basic_agent;
pub mod agent_architect;
pub mod agent_backend;
pub mod agent_traits;
pub mod command_line;
pub mod errors;
pub mod general;
pub mod json;
pub mod llm;
pub mod managing_agent;
