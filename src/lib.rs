//! State and rules of a project workspace shell: the reducer that drives its
//! screens, project-name validation, the file-tree listing, and a two-pane
//! split whose divider can be dragged. Ratios are fixed-point fractions of
//! `split::RATIO_SCALE`; positions and sizes are whole pixels.

use vstd::prelude::*;

pub mod app;
pub mod config;
pub mod file_tree;
pub mod geometry;
pub mod naming;
pub mod states;
pub mod split;
pub mod split_proofs;

verus! {

/// What can go wrong around the application state: its directories or its
/// settings file cannot be used.
#[derive(Clone, Copy, Debug, PartialEq, Eq, Structural)]
pub enum DispatchError {
    /// A directory the application keeps its data in is missing and cannot be made.
    MissingDirectory,
    /// The settings file cannot be read as settings.
    MalformedConfig,
}

} // verus!
