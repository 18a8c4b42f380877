//! A local automation gateway: GUI input and screenshots, text-file editing
//! with one level of undo, and a persistent shell session, each answered
//! with the same response envelope.

pub mod computer;
pub mod docker;
pub mod docker_manager;
pub mod edit;
pub mod reply;
pub mod shell;
pub mod text;
