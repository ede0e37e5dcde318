pub mod event;
pub mod github;
pub mod gitlab;
pub mod json;
pub mod webhook;
