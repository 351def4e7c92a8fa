//! What the screen says.
use vstd::prelude::*;

use crate::document::{Document, DocumentModel, NamedEnvironment, NamedEnvironmentModel};
use crate::state::{AppState, CollectionSession, LoadModel, LoadState, SessionModel};

pub mod browser;
pub mod cheatsheet;
pub mod edit_form;
pub mod environment;
pub mod layout;
pub mod modals;
pub mod response;
pub mod screen;
pub mod status;

verus! {

broadcast use vstd::string::group_string_axioms;

/// An error as it is shown everywhere: what failed, and under it the error
/// itself.
pub open spec fn error_text(heading: Seq<char>, error: Seq<char>) -> Seq<char> {
    "⚠ "@ + heading + "\n"@ + error
}

/// An error as it is shown everywhere: what failed, and under it the error
/// itself.
pub fn format_error(heading: &str, error: &str) -> (r: String)
    ensures
        r@ == error_text(heading@, error@),
{
    let mut text = "⚠ ".to_owned();
    text.append(heading);
    text.append("\n");
    text.append(error);
    text
}

/// What a tab is called: the collection's name, a single request's name or
/// label, the name of the file where neither is given, or what became of the
/// loading.
pub open spec fn label_of(load_state: LoadModel) -> Seq<char> {
    match load_state {
        LoadModel::Loading => "loading…"@,
        LoadModel::NoPathProvided { .. } => "(none)"@,
        LoadModel::Failed(_) => "(failed)"@,
        LoadModel::Loaded { document, path, .. } => match document {
            DocumentModel::Single(request) => request.display_name(),
            DocumentModel::Collection { name, .. } => match name {
                Some(name) => name,
                None => match path.stem {
                    Some(stem) => stem,
                    None => "collection"@,
                },
            },
        },
    }
}

/// What a tab is called.
pub fn collection_label(session: &CollectionSession) -> (r: String)
    ensures
        r@ == label_of(session@.load_state),
{
    match &session.load_state {
        LoadState::Loading => "loading…".to_owned(),
        LoadState::NoPathProvided { .. } => "(none)".to_owned(),
        LoadState::Failed(_) => "(failed)".to_owned(),
        LoadState::Loaded { document, path, .. } => match document {
            Document::Single(request) => request.display_name(),
            Document::Collection(collection) => match &collection.name {
                Some(name) => name.clone(),
                None => match &path.stem {
                    Some(stem) => stem.clone(),
                    None => "collection".to_owned(),
                },
            },
        },
    }
}

/// The environment that a session's requests are resolved against, once one
/// was picked.
pub open spec fn environment_in(s: SessionModel) -> Option<NamedEnvironmentModel> {
    match s.active_environment {
        Some(index) => if index < s.environments.len() {
            Some(s.environments[index as int])
        } else {
            None
        },
        None => None,
    }
}

/// The environment that a session's requests are resolved against, once one
/// was picked.
pub fn active_environment_in(session: &CollectionSession) -> (r: Option<&NamedEnvironment>)
    ensures
        match environment_in(session@) {
            Some(named) => r is Some && r->0@ == named,
            None => r is None,
        },
{
    match session.active_environment {
        Some(index) => if index < session.environments.len() {
            Some(&session.environments[index])
        } else {
            None
        },
        None => None,
    }
}

/// The environment that the active session's requests are resolved and run
/// against, once one was picked.
pub fn active_environment(state: &AppState) -> (r: Option<&NamedEnvironment>)
    requires
        state@.tabs_valid(),
    ensures
        match environment_in(state@.active()) {
            Some(named) => r is Some && r->0@ == named,
            None => r is None,
        },
{
    active_environment_in(state.active())
}

/// A part of the screen, in cells.
#[derive(Clone, Copy, Debug, PartialEq, Eq)]
pub struct Area {
    pub x: u16,
    pub y: u16,
    pub width: u16,
    pub height: u16,
}

/// What is left of an area inside a border of one cell. An area that is too
/// small for a border has nothing inside, and no cell lies beyond the last
/// that can be counted.
pub open spec fn inside(area: Area) -> Area {
    Area {
        x: if area.x == u16::MAX {
            area.x
        } else {
            (area.x + 1) as u16
        },
        y: if area.y == u16::MAX {
            area.y
        } else {
            (area.y + 1) as u16
        },
        width: if area.width < 2 {
            0
        } else {
            (area.width - 2) as u16
        },
        height: if area.height < 2 {
            0
        } else {
            (area.height - 2) as u16
        },
    }
}

/// What is left of an area inside a border of one cell.
pub fn inset(area: Area) -> (r: Area)
    ensures
        r == inside(area),
{
    Area {
        x: area.x.saturating_add(1),
        y: area.y.saturating_add(1),
        width: area.width.saturating_sub(2),
        height: area.height.saturating_sub(2),
    }
}

} // verus!
