//! What each part of the screen says and where it stands, as lines and rectangles.

pub mod analysis;
pub mod chat;
pub mod chrome;
pub mod conversation;
pub mod drafts;
pub mod files;
pub mod guidance;
pub mod highlight;
pub mod overview;
pub mod popups;
pub mod pr_list;
pub mod review;
pub mod threads;
