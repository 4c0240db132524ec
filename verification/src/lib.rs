//! Core logic of a OneBot (QQ) chat bot that answers through the iFlow chat API:
//! the message models it receives and sends, the per-user and per-group
//! conversation memory, the routing of incoming events, and the decisions taken
//! around each chat request.

pub mod iflow_json;
pub mod function_tools;
pub mod memory;
pub mod qq_group;
pub mod qq_user;
pub mod onebot_recv;
pub mod onebot_send;
pub mod config;
pub mod iflow_client;
pub mod dispatch;
pub mod daily_likes;
pub mod frames;
