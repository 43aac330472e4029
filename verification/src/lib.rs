//! Review state of a terminal pull-request reader: what is on screen, where the cursor is,
//! and what a key, a click or a finished job does to it.

pub mod action;
pub mod action_ids;
pub mod action_laws;
pub mod app;
pub mod app_analysis;
pub mod app_chat;
pub mod app_jobs;
pub mod app_keys;
pub mod app_laws;
pub mod app_models;
pub mod app_mouse;
pub mod app_overlay;
pub mod catalog;
pub mod chat;
pub mod chat_laws;
pub mod clipboard;
pub mod components;
pub mod content_laws;
pub mod diff_laws;
pub mod diff_view;
pub mod discussion;
pub mod draft;
pub mod drafts;
pub mod editor;
pub mod effect;
pub mod input;
pub mod job_laws;
pub mod jobs;
pub mod key_laws;
pub mod keys;
pub mod layout;
pub mod list_view;
pub mod model_picker;
pub mod notices;
pub mod order;
pub mod page_laws;
pub mod paint;
pub mod panel;
pub mod patch;
pub mod plan;
pub mod plan_laws;
pub mod pr;
pub mod row_laws;
pub mod rows;
pub mod scroll;
pub mod session;
pub mod split;
pub mod step_laws;
pub mod stream;
pub mod string_laws;
pub mod strings;
pub mod text;
pub mod thread_laws;
pub mod time;
pub mod tree;
pub mod tree_laws;
