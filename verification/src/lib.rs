//! A dual-platform chat-bot engine: updates from two messaging platforms are
//! decoded into plain data, normalized into one unified context, queued under
//! a fixed capacity, and dispatched through an ordered middleware chain.

pub mod api;
pub mod config;
pub mod context;
pub mod forms;
pub mod keyboard;
pub mod middleware;
pub mod multipart;
pub mod params;
pub mod poll;
pub mod queue;
pub mod sending;
pub mod text;
pub mod tg;
pub mod tg_api;
pub mod tg_attachments;
pub mod upload;
pub mod vk;
pub mod vk_api;
pub mod vk_attachments;
pub mod webhook;
