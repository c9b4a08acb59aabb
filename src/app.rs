use vstd::prelude::*;
use vstd::view::View as _;

use crate::config::Config;
use crate::naming::{name_error, validate_project_name};
use crate::states::{clamp_stored_ratio, fresh_states, in_layout_band, stored_ratio, StateValues};

verus! {

/// The screen on display.
#[derive(Clone, Copy, Debug, PartialEq, Eq, Structural)]
pub enum View {
    Onboarding1,
    ProjectSelected,
    NoProjectSelected,
    CreatingProject,
    SelectingExistingProject,
}

/// What the user (or a finished background task) asks of the application.
#[derive(Clone, Debug)]
pub enum Message {
    ContinueOnboarding,
    SelectedProject,
    NoSelectedProject,
    CreateNewProject,
    OpenExistingProject,
    NewProjectNameChanged(String),
    ConfirmNewProject,
    CancelNewProject,
    LoadExistingProjects,
    ExistingProjectsLoaded(Vec<String>),
    SelectExistingProject(String),
    ToggleProjectDropdown,
    ConfirmSelectedProject,
    CancelProjectSelection,
    /// New ratio, in units of `RATIO_SCALE`, of the split between main view and file tree.
    ResizeHorizontal(u32),
    /// New ratio, in units of `RATIO_SCALE`, of the split between the upper panes and the inspector.
    ResizeVertical(u32),
}

/// Work outside the application state that a message calls for.
#[derive(Clone, Debug)]
pub enum Effect {
    Nothing,
    /// List the projects under the data directory and report them with
    /// `Message::ExistingProjectsLoaded`.
    ScanProjects,
    /// Create this directory, and its parents, for a new project.
    CreateProjectDir(String),
}

/// The application: settings, where it runs, where projects live, the state
/// of its screens, and the screen on display.
pub struct Dispatcher {
    pub conf: Config,
    pub cwd: String,
    /// The directory that holds one directory per project.
    pub data_path: String,
    pub states: StateValues,
    pub view: View,
}

/// Where the project `name` lives under the data directory `data`.
pub open spec fn project_path(data: Seq<char>, name: Seq<char>) -> Seq<char> {
    data + seq!['/'] + name
}

/// The path of project `name` under the data directory `data`.
pub fn project_dir(data: &String, name: &String) -> (r: String)
    ensures
        r@ == project_path(data@, name@),
{
    let mut p = data.clone();
    proof {
        reveal_strlit("/");
    }
    p.append("/");
    p.append(name.as_str());
    p
}

impl Dispatcher {
    /// A fresh application with the given settings, working directory and data directory.
    pub fn new(conf: Config, cwd: String, data_path: String) -> (r: Dispatcher)
        ensures
            r.conf == conf,
            r.cwd == cwd,
            r.data_path == data_path,
            fresh_states(r.states),
            r.view == View::NoProjectSelected,
    {
        Dispatcher { conf, cwd, data_path, states: StateValues::new(), view: View::NoProjectSelected }
    }
}

/// How handling `message` in state `pre` leads to state `post` and to `effect`.
pub open spec fn update_post(pre: Dispatcher, message: Message, post: Dispatcher, effect: Effect) -> bool {
    let states = pre.states;
    match message {
        Message::ContinueOnboarding => {
            &&& post == (Dispatcher {
                conf: Config { first_time_use: false },
                view: View::Onboarding1,
                ..pre
            })
            &&& effect is Nothing
        },
        Message::SelectedProject => post == (Dispatcher { view: View::ProjectSelected, ..pre })
            && effect is Nothing,
        Message::NoSelectedProject => post == (Dispatcher { view: View::NoProjectSelected, ..pre })
            && effect is Nothing,
        Message::CreateNewProject => post == (Dispatcher { view: View::CreatingProject, ..pre })
            && effect is Nothing,
        Message::OpenExistingProject => post == (Dispatcher {
            view: View::SelectingExistingProject,
            ..pre
        }) && effect is ScanProjects,
        Message::NewProjectNameChanged(name) => {
            &&& post == (Dispatcher {
                states: StateValues {
                    new_project: crate::states::NewProjectState {
                        project_name: name,
                        validation_error: post.states.new_project.validation_error,
                    },
                    ..states
                },
                ..pre
            })
            &&& post.states.new_project.validation_error.deep_view() == name_error(name@)
            &&& effect is Nothing
        },
        Message::ConfirmNewProject => {
            let name = states.new_project.project_name;
            if states.new_project.validation_error is None && name@.len() > 0 {
                &&& post == (Dispatcher {
                    states: StateValues {
                        new_project: post.states.new_project,
                        project: crate::states::ProjectState {
                            current_project: name,
                            current_project_path: post.states.project.current_project_path,
                        },
                        ..states
                    },
                    view: View::ProjectSelected,
                    ..pre
                })
                &&& post.states.project.current_project_path@ == project_path(pre.data_path@, name@)
                &&& post.states.new_project.project_name@ == Seq::<char>::empty()
                &&& post.states.new_project.validation_error is None
                &&& effect matches Effect::CreateProjectDir(dir) && dir@ == project_path(
                    pre.data_path@,
                    name@,
                )
            } else {
                post == pre && effect is Nothing
            }
        },
        Message::CancelNewProject => {
            &&& post == (Dispatcher {
                states: StateValues { new_project: post.states.new_project, ..states },
                view: View::NoProjectSelected,
                ..pre
            })
            &&& post.states.new_project.project_name@ == Seq::<char>::empty()
            &&& post.states.new_project.validation_error is None
            &&& effect is Nothing
        },
        Message::LoadExistingProjects => post == pre && effect is ScanProjects,
        Message::ExistingProjectsLoaded(projects) => post == (Dispatcher {
            states: StateValues {
                existing_project: crate::states::ExistingProjectState {
                    available_projects: projects,
                    ..states.existing_project
                },
                ..states
            },
            ..pre
        }) && effect is Nothing,
        Message::SelectExistingProject(name) => post == (Dispatcher {
            states: StateValues {
                existing_project: crate::states::ExistingProjectState {
                    selected_project: Some(name),
                    ..states.existing_project
                },
                ..states
            },
            ..pre
        }) && effect is Nothing,
        Message::ToggleProjectDropdown => post == (Dispatcher {
            states: StateValues {
                existing_project: crate::states::ExistingProjectState {
                    is_dropdown_open: !states.existing_project.is_dropdown_open,
                    ..states.existing_project
                },
                ..states
            },
            ..pre
        }) && effect is Nothing,
        Message::ConfirmSelectedProject => match states.existing_project.selected_project {
            Some(name) => {
                &&& post == (Dispatcher {
                    states: StateValues {
                        project: crate::states::ProjectState {
                            current_project: name,
                            current_project_path: post.states.project.current_project_path,
                        },
                        ..states
                    },
                    view: View::ProjectSelected,
                    ..pre
                })
                &&& post.states.project.current_project_path@ == project_path(pre.data_path@, name@)
                &&& effect is Nothing
            },
            None => post == pre && effect is Nothing,
        },
        Message::CancelProjectSelection => post == (Dispatcher {
            states: StateValues {
                existing_project: crate::states::ExistingProjectState {
                    selected_project: None,
                    is_dropdown_open: false,
                    ..states.existing_project
                },
                ..states
            },
            view: View::NoProjectSelected,
            ..pre
        }) && effect is Nothing,
        Message::ResizeHorizontal(ratio) => post == (Dispatcher {
            states: StateValues {
                layout: crate::states::LayoutState {
                    horizontal_ratio: stored_ratio(ratio as int) as u32,
                    ..states.layout
                },
                ..states
            },
            ..pre
        }) && effect is Nothing,
        Message::ResizeVertical(ratio) => post == (Dispatcher {
            states: StateValues {
                layout: crate::states::LayoutState {
                    vertical_ratio: stored_ratio(ratio as int) as u32,
                    ..states.layout
                },
                ..states
            },
            ..pre
        }) && effect is Nothing,
    }
}

/// Applies `message` to the application and returns the outside work it calls for.
pub fn update(app: &mut Dispatcher, message: Message) -> (effect: Effect)
    ensures
        update_post(*old(app), message, *final(app), effect),
{
    match message {
        Message::ContinueOnboarding => {
            app.conf.first_time_use = false;
            app.view = View::Onboarding1;
            Effect::Nothing
        },
        Message::SelectedProject => {
            app.view = View::ProjectSelected;
            Effect::Nothing
        },
        Message::NoSelectedProject => {
            app.view = View::NoProjectSelected;
            Effect::Nothing
        },
        Message::CreateNewProject => {
            app.view = View::CreatingProject;
            Effect::Nothing
        },
        Message::OpenExistingProject => {
            app.view = View::SelectingExistingProject;
            Effect::ScanProjects
        },
        Message::NewProjectNameChanged(name) => {
            let error = validate_project_name(&name);
            app.states.new_project.project_name = name;
            app.states.new_project.validation_error = error;
            Effect::Nothing
        },
        Message::ConfirmNewProject => {
            if app.states.new_project.can_confirm() {
                let name = app.states.new_project.project_name.clone();
                let dir = project_dir(&app.data_path, &name);
                app.states.project.current_project = name;
                app.states.project.current_project_path = dir.clone();
                app.states.new_project.project_name = String::new();
                app.states.new_project.validation_error = None;
                app.view = View::ProjectSelected;
                Effect::CreateProjectDir(dir)
            } else {
                Effect::Nothing
            }
        },
        Message::CancelNewProject => {
            app.states.new_project.project_name = String::new();
            app.states.new_project.validation_error = None;
            app.view = View::NoProjectSelected;
            Effect::Nothing
        },
        Message::LoadExistingProjects => Effect::ScanProjects,
        Message::ExistingProjectsLoaded(projects) => {
            app.states.existing_project.available_projects = projects;
            Effect::Nothing
        },
        Message::SelectExistingProject(name) => {
            app.states.existing_project.selected_project = Some(name);
            Effect::Nothing
        },
        Message::ToggleProjectDropdown => {
            app.states.existing_project.is_dropdown_open = !app.states.existing_project.is_dropdown_open;
            Effect::Nothing
        },
        Message::ConfirmSelectedProject => {
            match &app.states.existing_project.selected_project {
                Some(name) => {
                    let name = name.clone();
                    let dir = project_dir(&app.data_path, &name);
                    app.states.project.current_project = name;
                    app.states.project.current_project_path = dir;
                    app.view = View::ProjectSelected;
                },
                None => {},
            }
            Effect::Nothing
        },
        Message::CancelProjectSelection => {
            app.states.existing_project.selected_project = None;
            app.states.existing_project.is_dropdown_open = false;
            app.view = View::NoProjectSelected;
            Effect::Nothing
        },
        Message::ResizeHorizontal(ratio) => {
            app.states.layout.horizontal_ratio = clamp_stored_ratio(ratio);
            Effect::Nothing
        },
        Message::ResizeVertical(ratio) => {
            app.states.layout.vertical_ratio = clamp_stored_ratio(ratio);
            Effect::Nothing
        },
    }
}

/// A resize message stores a ratio in the layout band, whatever ratio it
/// carries, and no message moves a stored ratio out of that band.
pub proof fn lemma_stored_ratios_in_band(pre: Dispatcher, message: Message, post: Dispatcher, effect: Effect)
    requires
        update_post(pre, message, post, effect),
    ensures
        message is ResizeHorizontal ==> in_layout_band(post.states.layout.horizontal_ratio as int),
        message is ResizeVertical ==> in_layout_band(post.states.layout.vertical_ratio as int),
        in_layout_band(pre.states.layout.horizontal_ratio as int) && in_layout_band(
            pre.states.layout.vertical_ratio as int,
        ) ==> in_layout_band(post.states.layout.horizontal_ratio as int) && in_layout_band(
            post.states.layout.vertical_ratio as int,
        ),
{
}

} // verus!
