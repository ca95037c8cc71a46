//! The lifecycle coordinator: a two-phase barrier that sequences editor
//! startup across independently, asynchronously completing subsystems, and
//! reverses cleanly on exit. A load barrier counts `SubsystemLoaded` signals
//! up to a known target, a setup barrier counts `SubsystemSetup` signals;
//! only the `Ready` state lets the mode machine and the edit processor run.
//! Teardown resets the setup counter and the mode machine, but not the load
//! phase: re-entering the editor repeats only the cheaper setup phase.

use vstd::prelude::*;

use crate::grid::{GridPosition, VisualHandle, LevelGrid, pos_in_bounds};
use crate::edit::{
    EditRequest, ValidationRequested, spec_request_position, spec_validation_of,
    spec_apply_request, spec_request_disposals,
};
use crate::mode::{
    ModeController, ModeTileLocalBuffer, StateEditorMode, EditorHookAction, spec_exit_actions,
    spec_enter_actions, spec_request_allowed, submit_edit_request,
};

verus! {

/// The global application mode: playing, or entering/running the editor.
#[derive(Clone, Copy, PartialEq, Eq, Structural, Debug)]
pub enum StateGlobal {
    Game,
    EditorRequested,
    EditorRunning,
}

/// Whether operator input is currently acted on.
#[derive(Clone, Copy, PartialEq, Eq, Structural, Debug)]
pub enum StateUserInputAllowed {
    NotAllowed,
    Allowed,
}

/// Where the editor stands in its load/setup lifecycle.
#[derive(Clone, Copy, PartialEq, Eq, Structural, Debug)]
pub enum StateEditorLoaded {
    NotLoaded,
    Loading,
    LoadedNotSetup,
    LoadedAndSetuping,
    Ready,
    JustLoadedNeedSetup,
}

/// How many subsystems emit one `SubsystemLoaded` signal each during the
/// load phase (cursor ray-casting plane, tile selector, camera rig).
pub const SUBSYSTEM_TO_LOAD_NUMBER: usize = 3;

/// How many subsystems emit one `SubsystemSetup` signal each during the
/// setup phase (tile preview, occupant preview, editor text, cursor state).
pub const SUBSYSTEM_TO_SETUP_NUMBER: usize = 4;

/// The two-phase barrier synchronizer.
pub struct LifecycleCoordinator {
    pub state: StateEditorLoaded,
    pub number_loaded: usize,
    pub number_setup: usize,
    pub load_target: usize,
    pub setup_target: usize,
    pub input_allowed: StateUserInputAllowed,
    pub loading_indicator_visible: bool,
}

impl LifecycleCoordinator {
    /// Builds a coordinator with the given barrier targets.
    pub fn new(load_target: usize, setup_target: usize) -> (c: LifecycleCoordinator)
        ensures
            c == (LifecycleCoordinator {
                state: StateEditorLoaded::NotLoaded,
                number_loaded: 0,
                number_setup: 0,
                load_target,
                setup_target,
                input_allowed: StateUserInputAllowed::NotAllowed,
                loading_indicator_visible: false,
            }),
    {
        LifecycleCoordinator {
            state: StateEditorLoaded::NotLoaded,
            number_loaded: 0,
            number_setup: 0,
            load_target,
            setup_target,
            input_allowed: StateUserInputAllowed::NotAllowed,
            loading_indicator_visible: false,
        }
    }

    /// Builds a coordinator with this editor's own subsystem counts.
    pub fn with_default_targets() -> (c: LifecycleCoordinator)
        ensures
            c == (LifecycleCoordinator {
                state: StateEditorLoaded::NotLoaded,
                number_loaded: 0,
                number_setup: 0,
                load_target: SUBSYSTEM_TO_LOAD_NUMBER,
                setup_target: SUBSYSTEM_TO_SETUP_NUMBER,
                input_allowed: StateUserInputAllowed::NotAllowed,
                loading_indicator_visible: false,
            }),
    {
        LifecycleCoordinator::new(SUBSYSTEM_TO_LOAD_NUMBER, SUBSYSTEM_TO_SETUP_NUMBER)
    }

    /// Whether the editor is interactive: the only state in which the mode
    /// machine and the edit processor may process input-sourced requests.
    pub fn is_ready(&self) -> (b: bool)
        ensures
            b == (self.state is Ready),
    {
        matches!(self.state, StateEditorLoaded::Ready)
    }

    /// Starts the load phase on first editor entry: the loading indicator
    /// goes up and operator input is blocked while subsystems initialize.
    pub fn begin_loading(&mut self)
        requires
            old(self).state is NotLoaded,
        ensures
            *final(self) == (LifecycleCoordinator {
                state: StateEditorLoaded::Loading,
                input_allowed: StateUserInputAllowed::NotAllowed,
                loading_indicator_visible: true,
                ..*old(self)
            }),
    {
        self.state = StateEditorLoaded::Loading;
        self.input_allowed = StateUserInputAllowed::NotAllowed;
        self.loading_indicator_visible = true;
    }

    /// Counts one `SubsystemLoaded` signal. The counter saturates at the
    /// load target, so a subsystem that signals more than once defensively,
    /// or a signal arriving outside the load phase, is tolerated; when the
    /// target is reached the coordinator leaves the load phase and takes the
    /// loading indicator down.
    pub fn on_subsystem_loaded(&mut self)
        ensures
            !(old(self).state is Loading) ==> *final(self) == *old(self),
            old(self).state is Loading && old(self).number_loaded + 1 < old(self).load_target
                ==> *final(self) == (LifecycleCoordinator {
                number_loaded: (old(self).number_loaded + 1) as usize,
                ..*old(self)
            }),
            old(self).state is Loading && old(self).number_loaded + 1 >= old(self).load_target
                ==> *final(self) == (LifecycleCoordinator {
                state: StateEditorLoaded::JustLoadedNeedSetup,
                number_loaded: if old(self).number_loaded < old(self).load_target {
                    (old(self).number_loaded + 1) as usize
                } else {
                    old(self).number_loaded
                },
                loading_indicator_visible: false,
                ..*old(self)
            }),
    {
        match self.state {
            StateEditorLoaded::Loading => {},
            _ => {
                return ;
            },
        }
        if self.number_loaded < self.load_target {
            self.number_loaded = self.number_loaded + 1;
        }
        if self.number_loaded >= self.load_target {
            self.state = StateEditorLoaded::JustLoadedNeedSetup;
            self.loading_indicator_visible = false;
        }
    }

    /// Starts the setup phase, either right after loading finished or on
    /// re-entering the editor with the load phase already done. The mode
    /// machine is put into normal mode; the returned actions are its hooks'.
    pub fn begin_setup(
        &mut self,
        mode: &mut ModeController,
        buffer: &mut ModeTileLocalBuffer,
    ) -> (actions: Vec<EditorHookAction>)
        requires
            old(self).state is LoadedNotSetup || old(self).state is JustLoadedNeedSetup,
        ensures
            *final(self) == (LifecycleCoordinator {
                state: StateEditorLoaded::LoadedAndSetuping,
                input_allowed: StateUserInputAllowed::NotAllowed,
                loading_indicator_visible: true,
                ..*old(self)
            }),
            final(mode).mode is Normal,
            actions@ == spec_exit_actions(old(mode).mode, old(buffer).hover_tile)
                + spec_enter_actions(StateEditorMode::Normal),
            final(buffer).hover_tile is None,
            final(buffer).selected_idx == old(buffer).selected_idx,
    {
        self.state = StateEditorLoaded::LoadedAndSetuping;
        self.input_allowed = StateUserInputAllowed::NotAllowed;
        self.loading_indicator_visible = true;
        mode.set_mode(StateEditorMode::Normal, buffer)
    }

    /// Counts one `SubsystemSetup` signal, saturating like the load barrier.
    /// When the setup target is reached the editor becomes `Ready`: the
    /// indicator goes down and operator input is allowed again.
    pub fn on_subsystem_setup(&mut self)
        ensures
            !(old(self).state is LoadedAndSetuping) ==> *final(self) == *old(self),
            old(self).state is LoadedAndSetuping && old(self).number_setup + 1 < old(
                self,
            ).setup_target ==> *final(self) == (LifecycleCoordinator {
                number_setup: (old(self).number_setup + 1) as usize,
                ..*old(self)
            }),
            old(self).state is LoadedAndSetuping && old(self).number_setup + 1 >= old(
                self,
            ).setup_target ==> *final(self) == (LifecycleCoordinator {
                state: StateEditorLoaded::Ready,
                number_setup: if old(self).number_setup < old(self).setup_target {
                    (old(self).number_setup + 1) as usize
                } else {
                    old(self).number_setup
                },
                input_allowed: StateUserInputAllowed::Allowed,
                loading_indicator_visible: false,
                ..*old(self)
            }),
    {
        match self.state {
            StateEditorLoaded::LoadedAndSetuping => {},
            _ => {
                return ;
            },
        }
        if self.number_setup < self.setup_target {
            self.number_setup = self.number_setup + 1;
        }
        if self.number_setup >= self.setup_target {
            self.state = StateEditorLoaded::Ready;
            self.input_allowed = StateUserInputAllowed::Allowed;
            self.loading_indicator_visible = false;
        }
    }

    /// Tears the editor down on exit: the setup counter resets, the mode
    /// machine goes back to `NoSet` (its exit hooks' actions are returned),
    /// and the state becomes "loaded, not set up", so the next entry only
    /// repeats the setup phase.
    pub fn teardown(
        &mut self,
        mode: &mut ModeController,
        buffer: &mut ModeTileLocalBuffer,
    ) -> (actions: Vec<EditorHookAction>)
        requires
            old(self).state is Ready,
        ensures
            *final(self) == (LifecycleCoordinator {
                state: StateEditorLoaded::LoadedNotSetup,
                number_setup: 0,
                input_allowed: StateUserInputAllowed::NotAllowed,
                ..*old(self)
            }),
            final(mode).mode is NoSet,
            actions@ == spec_exit_actions(old(mode).mode, old(buffer).hover_tile)
                + spec_enter_actions(StateEditorMode::NoSet),
            final(buffer).hover_tile is None,
            final(buffer).selected_idx == old(buffer).selected_idx,
    {
        self.state = StateEditorLoaded::LoadedNotSetup;
        self.number_setup = 0;
        self.input_allowed = StateUserInputAllowed::NotAllowed;
        mode.set_mode(StateEditorMode::NoSet, buffer)
    }
}

/// Submits one paint request through both gates: the editor must be `Ready`
/// and the current mode must allow the request's kind; otherwise nothing is
/// touched. This is the path input-sourced requests take.
pub fn editor_submit_request(
    coordinator: &LifecycleCoordinator,
    mode: &ModeController,
    grid: &mut LevelGrid,
    req: &EditRequest,
    queue: &mut Vec<ValidationRequested>,
    disposals: &mut Vec<VisualHandle>,
) -> (accepted: bool)
    ensures
        accepted == (coordinator.state is Ready && spec_request_allowed(mode.mode, *req)
            && pos_in_bounds(spec_request_position(*req))),
        !accepted ==> {
            &&& final(grid)@ == old(grid)@
            &&& final(queue)@ == old(queue)@
            &&& final(disposals)@ == old(disposals)@
        },
        accepted ==> {
            &&& final(grid)@ == spec_apply_request(old(grid)@, *req)
            &&& final(queue)@ == old(queue)@.push(spec_validation_of(*req))
            &&& final(disposals)@ == old(disposals)@ + spec_request_disposals(old(grid)@, *req)
        },
{
    if !coordinator.is_ready() {
        return false;
    }
    submit_edit_request(mode.mode, grid, req, queue, disposals)
}

} // verus!
