//! Request planning, response interpretation and reporting logic of an
//! EasyProject (Redmine) MCP server.

pub mod text;
pub mod enumeration;
pub mod dates;
pub mod reporting;
pub mod issue_update;
pub mod requests;
pub mod response;
pub mod registry;
pub mod attachment;
pub mod messages;
pub mod tool_requests;
