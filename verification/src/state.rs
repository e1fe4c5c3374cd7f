//! The browser's application state and the dispatcher for its user
//! interface events: selecting a new root directory via a dialog, editing
//! the filter text, and reloading the materialized item list.
//!
//! The surrounding interface layer owns the event loop: it performs each
//! returned [`UiAction`] (showing the dialog, reading the directory) and
//! hands the outcome back as the next [`UiEvent`].

use vstd::prelude::*;
use crate::listing::filtered_view;
use crate::listing::FilteredItems;
use crate::path_data::PathData;

verus! {

/// Where the selection flow stands: idle, or waiting for the directory
/// dialog to return.
#[derive(Clone, Copy, Debug, PartialEq, Eq)]
pub enum SelectionState {
    Idle,
    AwaitingDialogResult,
}

/// Why a directory could not be listed. Listing failures are recoverable:
/// the previous item list and root path stay intact and the error is kept
/// for the interface to show.
#[derive(Clone, Copy, Debug, PartialEq, Eq)]
pub enum ListError {
    /// The root directory does not exist.
    NotFound,
    /// The root path exists but is not a directory.
    NotADirectory,
    /// The root directory cannot be read.
    PermissionDenied,
    /// Any other enumeration failure.
    Other,
}

/// A user-interface event delivered to the dispatcher.
pub enum UiEvent {
    /// The user asked to pick a new root directory.
    BrowseRequested,
    /// The directory dialog returned the chosen path.
    DirectorySelected(PathData),
    /// The directory dialog was cancelled.
    DialogCancelled,
    /// The user edited the filter text.
    FilterChanged(String),
    /// The user asked to reload the materialized item list.
    ReloadRequested,
    /// The enumeration of the root directory finished, with its entries or
    /// with the failure it ran into.
    DirectoryRead(Result<Vec<PathData>, ListError>),
}

/// What the interface layer must do next.
pub enum UiAction {
    /// Nothing to do.
    NoAction,
    /// Show the native directory-selection dialog.
    ShowDirectoryPicker,
    /// Enumerate the direct children of the given directory and deliver
    /// them back as [`UiEvent::DirectoryRead`].
    ReadDirectory(PathData),
}

/// The browser's state: the materialized item snapshot, the root path and
/// the filter text, with the selection flow and the last listing failure.
///
/// The snapshot in `items` is frozen: editing the filter text or picking a
/// new root leaves it stale until the next reload materializes it anew.
/// The live view is never stored; it is derived fresh on every display by
/// [`FilteredItems::filter`].
pub struct AppData {
    /// The materialized item snapshot, overwritten only by a reload.
    pub items: Vec<PathData>,
    /// The root directory being browsed.
    pub git_path: PathData,
    /// The filter text; empty means match-all.
    pub input: String,
    /// Where the selection flow stands.
    pub selection: SelectionState,
    /// The failure of the last reload, if it failed; cleared by a
    /// successful reload.
    pub last_error: Option<ListError>,
}

impl AppData {
    /// The initial state: the configured root path, an initial snapshot of
    /// its entries, an empty filter text, an idle selection flow.
    pub fn new(initial_path: PathData, initial_items: Vec<PathData>) -> (r: Self)
        ensures
            r.items == initial_items,
            r.git_path == initial_path,
            r.input@ == Seq::<char>::empty(),
            r.selection is Idle,
            r.last_error is None,
    {
        AppData {
            items: initial_items,
            git_path: initial_path,
            input: String::new(),
            selection: SelectionState::Idle,
            last_error: None,
        }
    }

    /// Dispatch one user-interface event.
    ///
    /// Selecting a root only replaces the root path: the snapshot keeps
    /// the previous root's listing until a reload. Editing the filter text
    /// only replaces the text. A reload asks the interface to enumerate
    /// the current root; the entries come back as `DirectoryRead`, whose
    /// successful outcome alone materializes a new snapshot, filtered by
    /// the current filter text. A failed enumeration changes nothing but
    /// the recorded error.
    pub fn handle_event(&mut self, event: UiEvent) -> (action: UiAction)
        ensures
            (match event {
                UiEvent::BrowseRequested => {
                    &&& final (self).items == old(self).items
                    &&& final (self).git_path == old(self).git_path
                    &&& final (self).input == old(self).input
                    &&& final (self).last_error == old(self).last_error
                    &&& final (self).selection is AwaitingDialogResult
                    &&& action is ShowDirectoryPicker
                },
                UiEvent::DirectorySelected(path) => {
                    &&& final (self).git_path == path
                    &&& final (self).items == old(self).items
                    &&& final (self).input == old(self).input
                    &&& final (self).last_error == old(self).last_error
                    &&& final (self).selection is Idle
                    &&& action is NoAction
                },
                UiEvent::DialogCancelled => {
                    &&& final (self).items == old(self).items
                    &&& final (self).git_path == old(self).git_path
                    &&& final (self).input == old(self).input
                    &&& final (self).last_error == old(self).last_error
                    &&& final (self).selection is Idle
                    &&& action is NoAction
                },
                UiEvent::FilterChanged(text) => {
                    &&& final (self).input == text
                    &&& final (self).items == old(self).items
                    &&& final (self).git_path == old(self).git_path
                    &&& final (self).last_error == old(self).last_error
                    &&& final (self).selection == old(self).selection
                    &&& action is NoAction
                },
                UiEvent::ReloadRequested => {
                    &&& *final (self) == *old(self)
                    &&& action == UiAction::ReadDirectory(old(self).git_path)
                },
                UiEvent::DirectoryRead(outcome) => match outcome {
                    Ok(entries) => {
                        &&& final (self).items@ == filtered_view(entries@, old(self).input@)
                        &&& final (self).git_path == old(self).git_path
                        &&& final (self).input == old(self).input
                        &&& final (self).selection == old(self).selection
                        &&& final (self).last_error is None
                        &&& action is NoAction
                    },
                    Err(failure) => {
                        &&& final (self).items == old(self).items
                        &&& final (self).git_path == old(self).git_path
                        &&& final (self).input == old(self).input
                        &&& final (self).selection == old(self).selection
                        &&& final (self).last_error == Some(failure)
                        &&& action is NoAction
                    },
                },
            }),
    {
        match event {
            UiEvent::BrowseRequested => {
                self.selection = SelectionState::AwaitingDialogResult;
                UiAction::ShowDirectoryPicker
            },
            UiEvent::DirectorySelected(path) => {
                self.git_path = path;
                self.selection = SelectionState::Idle;
                UiAction::NoAction
            },
            UiEvent::DialogCancelled => {
                self.selection = SelectionState::Idle;
                UiAction::NoAction
            },
            UiEvent::FilterChanged(text) => {
                self.input = text;
                UiAction::NoAction
            },
            UiEvent::ReloadRequested => {
                UiAction::ReadDirectory(self.git_path.clone())
            },
            UiEvent::DirectoryRead(outcome) => {
                match outcome {
                    Ok(entries) => {
                        self.items = FilteredItems::filter(&entries, &self.input);
                        self.last_error = None;
                    },
                    Err(failure) => {
                        self.last_error = Some(failure);
                    },
                }
                UiAction::NoAction
            },
        }
    }
}

} // verus!
