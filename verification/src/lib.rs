//! State, reducer and screen text of a terminal client for HTTP collections.

pub mod document;
pub mod edit;
pub mod laws;
pub mod outside;
pub mod paths;
pub mod preview;
pub mod prompt;
pub mod run;
pub mod state;
pub mod text;
pub mod text_field;
pub mod update;
pub mod variables_form;
pub mod view;
