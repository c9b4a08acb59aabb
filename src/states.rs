use vstd::prelude::*;

verus! {

/// Smallest ratio the application stores for a pane split.
pub const LAYOUT_MIN_RATIO: u32 = 2000;

/// Largest ratio the application stores for a pane split.
pub const LAYOUT_MAX_RATIO: u32 = 9000;

/// Share of the width given to the main view, next to the file tree.
pub const DEFAULT_HORIZONTAL_RATIO: u32 = 8000;

/// Share of the height given to the main view and file tree, above the inspector.
pub const DEFAULT_VERTICAL_RATIO: u32 = 7000;

pub open spec fn in_layout_band(r: int) -> bool {
    LAYOUT_MIN_RATIO <= r <= LAYOUT_MAX_RATIO
}

/// The ratio stored for a requested one: the request clamped into the layout band.
pub open spec fn stored_ratio(requested: int) -> int {
    if requested < LAYOUT_MIN_RATIO {
        LAYOUT_MIN_RATIO as int
    } else if requested > LAYOUT_MAX_RATIO {
        LAYOUT_MAX_RATIO as int
    } else {
        requested
    }
}

/// Clamps a requested ratio into the layout band.
pub fn clamp_stored_ratio(requested: u32) -> (r: u32)
    ensures
        r == stored_ratio(requested as int),
        in_layout_band(r as int),
{
    if requested < LAYOUT_MIN_RATIO {
        LAYOUT_MIN_RATIO
    } else if requested > LAYOUT_MAX_RATIO {
        LAYOUT_MAX_RATIO
    } else {
        requested
    }
}

/// The two pane ratios of the workspace, in units of `RATIO_SCALE`.
pub struct LayoutState {
    /// Main view against file tree.
    pub horizontal_ratio: u32,
    /// Main view and file tree against inspector.
    pub vertical_ratio: u32,
    pub is_dragging_horizontal: bool,
    pub is_dragging_vertical: bool,
}

impl Default for LayoutState {
    fn default() -> (r: LayoutState)
        ensures
            r.horizontal_ratio == DEFAULT_HORIZONTAL_RATIO,
            r.vertical_ratio == DEFAULT_VERTICAL_RATIO,
            !r.is_dragging_horizontal,
            !r.is_dragging_vertical,
            in_layout_band(r.horizontal_ratio as int),
            in_layout_band(r.vertical_ratio as int),
    {
        LayoutState {
            horizontal_ratio: DEFAULT_HORIZONTAL_RATIO,
            vertical_ratio: DEFAULT_VERTICAL_RATIO,
            is_dragging_horizontal: false,
            is_dragging_vertical: false,
        }
    }
}

/// The project that is open.
pub struct ProjectState {
    pub current_project: String,
    pub current_project_path: String,
}

impl Default for ProjectState {
    fn default() -> (r: ProjectState)
        ensures
            r.current_project@ == Seq::<char>::empty(),
            r.current_project_path@ == Seq::<char>::empty(),
    {
        ProjectState { current_project: String::new(), current_project_path: String::new() }
    }
}

/// The project being created: its name as typed, and what is wrong with it.
pub struct NewProjectState {
    pub project_name: String,
    pub validation_error: Option<String>,
}

impl NewProjectState {
    /// Whether the name typed so far can become a project: it is not empty
    /// and nothing is wrong with it.
    pub fn can_confirm(&self) -> (r: bool)
        ensures
            r == (self.validation_error is None && self.project_name@.len() > 0),
    {
        self.validation_error.is_none() && self.project_name.as_str().unicode_len() > 0
    }
}

impl Default for NewProjectState {
    fn default() -> (r: NewProjectState)
        ensures
            r.project_name@ == Seq::<char>::empty(),
            r.validation_error is None,
    {
        NewProjectState { project_name: String::new(), validation_error: None }
    }
}

/// The choice among projects that already exist.
pub struct ExistingProjectState {
    pub available_projects: Vec<String>,
    pub selected_project: Option<String>,
    pub is_dropdown_open: bool,
}

impl Default for ExistingProjectState {
    fn default() -> (r: ExistingProjectState)
        ensures
            r.available_projects@.len() == 0,
            r.selected_project is None,
            !r.is_dropdown_open,
    {
        ExistingProjectState { available_projects: Vec::new(), selected_project: None, is_dropdown_open: false }
    }
}

/// All state the screens read and the reducer writes.
pub struct StateValues {
    pub new_project: NewProjectState,
    pub project: ProjectState,
    pub layout: LayoutState,
    pub existing_project: ExistingProjectState,
}

pub open spec fn fresh_states(s: StateValues) -> bool {
    &&& s.new_project.project_name@ == Seq::<char>::empty()
    &&& s.new_project.validation_error is None
    &&& s.project.current_project@ == Seq::<char>::empty()
    &&& s.project.current_project_path@ == Seq::<char>::empty()
    &&& s.layout.horizontal_ratio == DEFAULT_HORIZONTAL_RATIO
    &&& s.layout.vertical_ratio == DEFAULT_VERTICAL_RATIO
    &&& !s.layout.is_dragging_horizontal
    &&& !s.layout.is_dragging_vertical
    &&& s.existing_project.available_projects@.len() == 0
    &&& s.existing_project.selected_project is None
    &&& !s.existing_project.is_dropdown_open
}

impl StateValues {
    pub fn new() -> (r: StateValues)
        ensures
            fresh_states(r),
    {
        StateValues {
            new_project: NewProjectState::default(),
            project: ProjectState::default(),
            layout: LayoutState::default(),
            existing_project: ExistingProjectState::default(),
        }
    }
}

} // verus!
