//! The pipeline controller's decision core: the fixed phase order of the
//! disk pipeline, the fail-fast transition rule, the single mutable state
//! threaded between stages, the top-level menu resolution, and the process
//! exit policy. The controller's outside work — prompting, spawning, the
//! terminal exit itself — is the thin driver's; every decision is here.

use vstd::prelude::*;
use crate::step::Stage;
use crate::step::StageResult;
use crate::text::str_eq;
use crate::zfs::is_basesystem_stage;
use crate::zfs::is_filesystem_stage;
use crate::zfs::is_partition_stage;
use crate::zfs::zfs_partition_drive;
use crate::zfs::zfs_setup_basesystem;
use crate::zfs::zfs_setup_filesystem;

verus! {

/// The operator's top-level selection: one stage group runs per invocation.
#[derive(Clone, Copy, Debug, PartialEq, Eq, Structural)]
pub enum MenuChoice {
    Zfs,
    Chroot,
    User,
    Invalid,
}

/// What the numbered menu resolves one input line to.
pub open spec fn spec_menu_choice(input: Seq<char>) -> MenuChoice {
    if input == "1"@ {
        MenuChoice::Zfs
    } else if input == "2"@ {
        MenuChoice::Chroot
    } else if input == "3"@ {
        MenuChoice::User
    } else {
        MenuChoice::Invalid
    }
}

/// Resolves the operator's answer to the numbered menu.
pub fn menu_choice(input: &str) -> (c: MenuChoice)
    ensures
        c == spec_menu_choice(input@),
{
    if str_eq(input, "1") {
        MenuChoice::Zfs
    } else if str_eq(input, "2") {
        MenuChoice::Chroot
    } else if str_eq(input, "3") {
        MenuChoice::User
    } else {
        MenuChoice::Invalid
    }
}

/// What a command-line flag resolves to.
pub open spec fn spec_flag_choice(arg: Seq<char>) -> MenuChoice {
    if arg == "--zfs"@ {
        MenuChoice::Zfs
    } else if arg == "--chroot"@ {
        MenuChoice::Chroot
    } else if arg == "--user"@ {
        MenuChoice::User
    } else {
        MenuChoice::Invalid
    }
}

/// Resolves one command-line flag; anything unrecognized is reported but
/// does not abort the argument walk.
pub fn flag_choice(arg: &str) -> (c: MenuChoice)
    ensures
        c == spec_flag_choice(arg@),
{
    if str_eq(arg, "--zfs") {
        MenuChoice::Zfs
    } else if str_eq(arg, "--chroot") {
        MenuChoice::Chroot
    } else if str_eq(arg, "--user") {
        MenuChoice::User
    } else {
        MenuChoice::Invalid
    }
}

/// The phases of the disk pipeline, in their fixed order, with the two
/// terminal states.
#[derive(Clone, Copy, Debug, PartialEq, Eq, Structural)]
pub enum Phase {
    Idle,
    InstallTool,
    SelectDevice,
    Partition,
    BuildFilesystem,
    BootstrapBase,
    TerminatedSuccess,
    TerminatedFailure,
}

/// The successor of each phase when its stage succeeds; the terminal
/// phases are absorbing.
pub open spec fn spec_phase_on_success(p: Phase) -> Phase {
    match p {
        Phase::Idle => Phase::InstallTool,
        Phase::InstallTool => Phase::SelectDevice,
        Phase::SelectDevice => Phase::Partition,
        Phase::Partition => Phase::BuildFilesystem,
        Phase::BuildFilesystem => Phase::BootstrapBase,
        Phase::BootstrapBase => Phase::TerminatedSuccess,
        Phase::TerminatedSuccess => Phase::TerminatedSuccess,
        Phase::TerminatedFailure => Phase::TerminatedFailure,
    }
}

/// The transition rule: the pipeline advances to the next phase only on
/// success of the current one; any failure moves it straight to the failed
/// terminal phase, skipping every remaining stage.
pub open spec fn spec_next_phase(p: Phase, ok: bool) -> Phase {
    if p is TerminatedSuccess || p is TerminatedFailure {
        p
    } else if ok {
        spec_phase_on_success(p)
    } else {
        Phase::TerminatedFailure
    }
}

/// Advances the pipeline by the outcome of the phase just run.
pub fn next_phase(p: Phase, ok: bool) -> (q: Phase)
    ensures
        q == spec_next_phase(p, ok),
{
    match p {
        Phase::TerminatedSuccess => Phase::TerminatedSuccess,
        Phase::TerminatedFailure => Phase::TerminatedFailure,
        _ => {
            if !ok {
                Phase::TerminatedFailure
            } else {
                match p {
                    Phase::Idle => Phase::InstallTool,
                    Phase::InstallTool => Phase::SelectDevice,
                    Phase::SelectDevice => Phase::Partition,
                    Phase::Partition => Phase::BuildFilesystem,
                    Phase::BuildFilesystem => Phase::BootstrapBase,
                    _ => Phase::TerminatedSuccess,
                }
            }
        },
    }
}

/// The operator-supplied values that parameterize the in-root stage.
pub struct Credentials {
    pub username: String,
    pub password: String,
    pub platform: String,
}

/// The single mutable context threaded through the pipeline. Every run
/// starts from a clean state; once a producing stage has set a field, it
/// stays as set for the rest of the run — the setters' preconditions hold
/// each field to that discipline.
pub struct PipelineState {
    pub selected_device: Option<String>,
    pub credentials: Option<Credentials>,
    pub dotfiles_source: Option<String>,
}

impl PipelineState {
    /// The clean state a run starts from: nothing selected, nothing asked.
    pub fn new() -> (s: PipelineState)
        ensures
            s.selected_device is None,
            s.credentials is None,
            s.dotfiles_source is None,
    {
        PipelineState { selected_device: None, credentials: None, dotfiles_source: None }
    }

    /// Fixes the selected device, once, leaving the rest untouched.
    pub fn set_device(&mut self, device: String)
        requires
            old(self).selected_device is None,
        ensures
            final(self).selected_device == Some(device),
            final(self).credentials == old(self).credentials,
            final(self).dotfiles_source == old(self).dotfiles_source,
    {
        self.selected_device = Some(device);
    }

    /// Fixes the operator's credentials, once, leaving the rest untouched.
    pub fn set_credentials(&mut self, credentials: Credentials)
        requires
            old(self).credentials is None,
        ensures
            final(self).credentials == Some(credentials),
            final(self).selected_device == old(self).selected_device,
            final(self).dotfiles_source == old(self).dotfiles_source,
    {
        self.credentials = Some(credentials);
    }

    /// Fixes the dotfiles source, once, leaving the rest untouched.
    pub fn set_dotfiles_source(&mut self, source: String)
        requires
            old(self).dotfiles_source is None,
        ensures
            final(self).dotfiles_source == Some(source),
            final(self).selected_device == old(self).selected_device,
            final(self).credentials == old(self).credentials,
    {
        self.dotfiles_source = Some(source);
    }
}

/// The recipe the controller hands to the sequencer in the given phase,
/// with the late-bound parameters of the current pipeline state baked in.
/// The disk stages need the selected device and cannot be built before one
/// is fixed; the other phases run no fixed recipe of their own — the tool
/// install's one step is fetched immediately before execution, device
/// selection is interactive, and the terminal phases run nothing.
pub fn stage_for_phase(phase: Phase, state: &PipelineState) -> (r: Option<Stage>)
    ensures
        r is Some <==> (((phase is Partition || phase is BuildFilesystem)
            && state.selected_device is Some) || phase is BootstrapBase),
        phase is Partition ==> (state.selected_device matches Some(device) ==> (r matches Some(
            stage,
        ) && is_partition_stage(stage, device@))),
        phase is BuildFilesystem ==> (state.selected_device matches Some(device) ==> (r matches Some(
            stage,
        ) && is_filesystem_stage(stage, device@))),
        phase is BootstrapBase ==> (r matches Some(stage) && is_basesystem_stage(stage)),
{
    match phase {
        Phase::Partition => match &state.selected_device {
            Some(device) => Some(zfs_partition_drive(device.as_str())),
            None => None,
        },
        Phase::BuildFilesystem => match &state.selected_device {
            Some(device) => Some(zfs_setup_filesystem(device.as_str())),
            None => None,
        },
        Phase::BootstrapBase => Some(zfs_setup_basesystem()),
        _ => None,
    }
}

/// The process exit policy: status zero exactly when the pipeline
/// completed, status one whenever a step's subordinate process failed. No
/// partial success is ever reported as success.
pub fn exit_code(r: &StageResult) -> (c: i32)
    ensures
        c == 0 <==> r is Success,
        c == 1 <==> r is Failure,
{
    match r {
        StageResult::Success { .. } => 0,
        StageResult::Failure { .. } => 1,
    }
}

} // verus!
