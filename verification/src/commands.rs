use vstd::prelude::*;

use crate::driver::BacklightError;
use crate::error::CliError;

verus! {

/// A command that works on one backlight device.
#[derive(Debug, Clone, Copy, PartialEq, Eq, Structural)]
pub enum CommandKind {
    /// Print the maximum brightness value.
    Max,
    /// Print the current brightness value.
    Get,
    /// Set the brightness to the value given on the command line: at once
    /// when `immediate`, else by a transition; when `save`, the brightness the
    /// device had before is saved first, for `restore`.
    SetBrightness { immediate: bool, save: bool },
    /// Move back to the brightness saved by `set --save`, and forget it.
    Restore,
}

/// What a command asks of the device and of the state file, or how it ended.
#[derive(Debug)]
pub enum CommandAction {
    /// Read the device's maximum brightness.
    ReadMax,
    /// Read the device's current brightness.
    ReadCurrent,
    /// Work out, from the device's current and maximum brightness, the raw
    /// value that the brightness argument stands for.
    Resolve { current: u32, max: u32 },
    /// Save `value` as the brightness to restore later for the device.
    SaveState { value: u32 },
    /// Write `value` to the device at once.
    SetBrightness { value: u32 },
    /// Move the device's brightness to `value` by a transition.
    Transition { value: u32 },
    /// Look up the saved brightness of the device.
    LoadState,
    /// Forget the saved brightness of the device.
    RemoveState,
    /// The command is over: the value to print, if any, or the failure.
    Done(Result<Option<u32>, CliError>),
}

/// What came of the last action of a command.
#[derive(Debug)]
pub enum CommandEvent {
    MaxRead(Result<u32, BacklightError>),
    CurrentRead(Result<u32, BacklightError>),
    Resolved(u32),
    StateSaved(Result<(), CliError>),
    BrightnessSet(Result<(), BacklightError>),
    TransitionDone(Result<(), BacklightError>),
    StateLoaded(Result<Option<u32>, CliError>),
    StateRemoved(Result<(), CliError>),
}

/// Where a command stands.
#[derive(Debug, Clone, Copy, PartialEq, Eq, Structural)]
pub enum CommandPhase {
    ReadingMax,
    ReadingCurrent { max: u32 },
    Resolving { current: u32, max: u32 },
    Saving { current: u32, value: u32 },
    Setting { value: u32 },
    Transitioning { value: u32 },
    Loading,
    Removing,
    Finished,
}

/// The action that a command in `phase` waits on the answer to.
pub open spec fn pending_command_action(phase: CommandPhase) -> CommandAction {
    match phase {
        CommandPhase::ReadingMax => CommandAction::ReadMax,
        CommandPhase::ReadingCurrent { .. } => CommandAction::ReadCurrent,
        CommandPhase::Resolving { current, max } => CommandAction::Resolve { current, max },
        CommandPhase::Saving { current, .. } => CommandAction::SaveState { value: current },
        CommandPhase::Setting { value } => CommandAction::SetBrightness { value },
        CommandPhase::Transitioning { value } => CommandAction::Transition { value },
        CommandPhase::Loading => CommandAction::LoadState,
        CommandPhase::Removing => CommandAction::RemoveState,
        CommandPhase::Finished => CommandAction::Done(Ok(None)),
    }
}

/// The action that changes the brightness to `value` for a `set` command.
pub open spec fn change_action(kind: CommandKind, value: u32) -> CommandAction {
    if kind matches CommandKind::SetBrightness { immediate: true, .. } {
        CommandAction::SetBrightness { value }
    } else {
        CommandAction::Transition { value }
    }
}

/// The phase that waits on [`change_action`].
pub open spec fn change_phase(kind: CommandKind, value: u32) -> CommandPhase {
    if kind matches CommandKind::SetBrightness { immediate: true, .. } {
        CommandPhase::Setting { value }
    } else {
        CommandPhase::Transitioning { value }
    }
}

/// The phase a command of kind `kind` starts in.
pub open spec fn first_phase(kind: CommandKind) -> CommandPhase {
    match kind {
        CommandKind::Get => CommandPhase::ReadingCurrent { max: 0 },
        CommandKind::Restore => CommandPhase::Loading,
        _ => CommandPhase::ReadingMax,
    }
}

/// One step of a command of kind `kind` on the device saved under
/// `device_id`: in `phase`, the answer `event` leads to `next` and asks for
/// `action`.
pub open spec fn command_step(
    kind: CommandKind,
    device_id: Seq<char>,
    phase: CommandPhase,
    event: CommandEvent,
    next: CommandPhase,
    action: CommandAction,
) -> bool {
    match (phase, event) {
        (CommandPhase::ReadingMax, CommandEvent::MaxRead(Err(e))) => next == CommandPhase::Finished && action
            == CommandAction::Done(Err(CliError::Backlight(e))),
        (CommandPhase::ReadingMax, CommandEvent::MaxRead(Ok(max))) => if kind is Max {
            next == CommandPhase::Finished && action == CommandAction::Done(Ok(Some(max)))
        } else {
            next == (CommandPhase::ReadingCurrent { max }) && action == CommandAction::ReadCurrent
        },
        (CommandPhase::ReadingCurrent { .. }, CommandEvent::CurrentRead(Err(e))) => next == CommandPhase::Finished
            && action == CommandAction::Done(Err(CliError::Backlight(e))),
        (CommandPhase::ReadingCurrent { max }, CommandEvent::CurrentRead(Ok(current))) => if kind is Get {
            next == CommandPhase::Finished && action == CommandAction::Done(Ok(Some(current)))
        } else {
            next == (CommandPhase::Resolving { current, max }) && action == (CommandAction::Resolve {
                current,
                max,
            })
        },
        (CommandPhase::Resolving { current, .. }, CommandEvent::Resolved(value)) => if kind matches CommandKind::SetBrightness {
            save: true,
            ..
        } {
            next == (CommandPhase::Saving { current, value }) && action == (CommandAction::SaveState {
                value: current,
            })
        } else {
            next == change_phase(kind, value) && action == change_action(kind, value)
        },
        (CommandPhase::Saving { .. }, CommandEvent::StateSaved(Err(e))) => next == CommandPhase::Finished
            && action == CommandAction::Done(Err(e)),
        (CommandPhase::Saving { value, .. }, CommandEvent::StateSaved(Ok(()))) => next == change_phase(kind, value)
            && action == change_action(kind, value),
        (CommandPhase::Setting { .. }, CommandEvent::BrightnessSet(r)) => next == CommandPhase::Finished && action
            == CommandAction::Done(
            match r {
                Ok(()) => Ok(None),
                Err(e) => Err(CliError::Backlight(e)),
            },
        ),
        (CommandPhase::Transitioning { .. }, CommandEvent::TransitionDone(Err(e))) => next == CommandPhase::Finished
            && action == CommandAction::Done(Err(CliError::Backlight(e))),
        (CommandPhase::Transitioning { .. }, CommandEvent::TransitionDone(Ok(()))) => if kind is Restore {
            next == CommandPhase::Removing && action == CommandAction::RemoveState
        } else {
            next == CommandPhase::Finished && action == CommandAction::Done(Ok(None))
        },
        (CommandPhase::Loading, CommandEvent::StateLoaded(Err(e))) => next == CommandPhase::Finished && action
            == CommandAction::Done(Err(e)),
        (CommandPhase::Loading, CommandEvent::StateLoaded(Ok(None))) => next == CommandPhase::Finished
            && (action matches CommandAction::Done(Err(CliError::NoSavedBrightness { device }))
            && device@ == device_id),
        (CommandPhase::Loading, CommandEvent::StateLoaded(Ok(Some(value)))) => next == (CommandPhase::Transitioning { value })
            && action == (CommandAction::Transition { value }),
        (CommandPhase::Removing, CommandEvent::StateRemoved(r)) => next == CommandPhase::Finished && action
            == CommandAction::Done(
            match r {
                Ok(()) => Ok(None),
                Err(e) => Err(e),
            },
        ),
        _ => next == phase && action == pending_command_action(phase),
    }
}

/// The decisions of running a command on one device: which reads, writes
/// and state-file accesses it asks for, in which order, and how it ends.
pub struct CommandRun {
    kind: CommandKind,
    device_id: String,
    phase: CommandPhase,
}

impl CommandRun {
    /// The command being run.
    pub closed spec fn kind(&self) -> CommandKind {
        self.kind
    }

    /// The identifier under which the device's brightness is saved.
    pub closed spec fn device_id(&self) -> Seq<char> {
        self.device_id@
    }

    /// Where the command stands.
    pub closed spec fn phase(&self) -> CommandPhase {
        self.phase
    }

    /// Starts `kind` on the device saved under `device_id`, and gives its first
    /// action: `get` reads the current brightness, `restore` looks up the
    /// saved brightness, and the others read the maximum brightness.
    pub fn new(kind: CommandKind, device_id: String) -> (r: (Self, CommandAction))
        ensures
            r.0.kind() == kind,
            r.0.device_id() == device_id@,
            r.0.phase() == first_phase(kind),
            r.1 == pending_command_action(first_phase(kind)),
    {
        match kind {
            CommandKind::Get => (
                CommandRun { kind, device_id, phase: CommandPhase::ReadingCurrent { max: 0 } },
                CommandAction::ReadCurrent,
            ),
            CommandKind::Restore => (
                CommandRun { kind, device_id, phase: CommandPhase::Loading },
                CommandAction::LoadState,
            ),
            _ => (CommandRun { kind, device_id, phase: CommandPhase::ReadingMax }, CommandAction::ReadMax),
        }
    }

    /// The identifier under which the device's brightness is saved.
    pub fn saved_under(&self) -> (r: &str)
        ensures
            r@ == self.device_id(),
    {
        self.device_id.as_str()
    }

    /// Takes what came of the last action and gives the next one. An answer
    /// that the command is not waiting for changes nothing, and the pending
    /// action is asked again.
    pub fn advance(&mut self, event: CommandEvent) -> (action: CommandAction)
        ensures
            final(self).kind() == old(self).kind(),
            final(self).device_id() == old(self).device_id(),
            command_step(old(self).kind(), old(self).device_id(), old(self).phase(), event, final(self).phase(), action),
    {
        let kind = self.kind;
        match (self.phase, event) {
            (CommandPhase::ReadingMax, CommandEvent::MaxRead(Err(e))) => {
                self.phase = CommandPhase::Finished;
                CommandAction::Done(Err(CliError::Backlight(e)))
            },
            (CommandPhase::ReadingMax, CommandEvent::MaxRead(Ok(max))) => {
                if let CommandKind::Max = kind {
                    self.phase = CommandPhase::Finished;
                    CommandAction::Done(Ok(Some(max)))
                } else {
                    self.phase = CommandPhase::ReadingCurrent { max };
                    CommandAction::ReadCurrent
                }
            },
            (CommandPhase::ReadingCurrent { .. }, CommandEvent::CurrentRead(Err(e))) => {
                self.phase = CommandPhase::Finished;
                CommandAction::Done(Err(CliError::Backlight(e)))
            },
            (CommandPhase::ReadingCurrent { max }, CommandEvent::CurrentRead(Ok(current))) => {
                if let CommandKind::Get = kind {
                    self.phase = CommandPhase::Finished;
                    CommandAction::Done(Ok(Some(current)))
                } else {
                    self.phase = CommandPhase::Resolving { current, max };
                    CommandAction::Resolve { current, max }
                }
            },
            (CommandPhase::Resolving { current, .. }, CommandEvent::Resolved(value)) => {
                if let CommandKind::SetBrightness { save: true, .. } = kind {
                    self.phase = CommandPhase::Saving { current, value };
                    CommandAction::SaveState { value: current }
                } else {
                    self.start_change(value)
                }
            },
            (CommandPhase::Saving { .. }, CommandEvent::StateSaved(Err(e))) => {
                self.phase = CommandPhase::Finished;
                CommandAction::Done(Err(e))
            },
            (CommandPhase::Saving { value, .. }, CommandEvent::StateSaved(Ok(()))) => self.start_change(value),
            (CommandPhase::Setting { .. }, CommandEvent::BrightnessSet(r)) => {
                self.phase = CommandPhase::Finished;
                CommandAction::Done(
                    match r {
                        Ok(()) => Ok(None),
                        Err(e) => Err(CliError::Backlight(e)),
                    },
                )
            },
            (CommandPhase::Transitioning { .. }, CommandEvent::TransitionDone(Err(e))) => {
                self.phase = CommandPhase::Finished;
                CommandAction::Done(Err(CliError::Backlight(e)))
            },
            (CommandPhase::Transitioning { .. }, CommandEvent::TransitionDone(Ok(()))) => {
                if let CommandKind::Restore = kind {
                    self.phase = CommandPhase::Removing;
                    CommandAction::RemoveState
                } else {
                    self.phase = CommandPhase::Finished;
                    CommandAction::Done(Ok(None))
                }
            },
            (CommandPhase::Loading, CommandEvent::StateLoaded(Err(e))) => {
                self.phase = CommandPhase::Finished;
                CommandAction::Done(Err(e))
            },
            (CommandPhase::Loading, CommandEvent::StateLoaded(Ok(None))) => {
                self.phase = CommandPhase::Finished;
                CommandAction::Done(Err(CliError::NoSavedBrightness { device: self.device_id.clone() }))
            },
            (CommandPhase::Loading, CommandEvent::StateLoaded(Ok(Some(value)))) => {
                self.phase = CommandPhase::Transitioning { value };
                CommandAction::Transition { value }
            },
            (CommandPhase::Removing, CommandEvent::StateRemoved(r)) => {
                self.phase = CommandPhase::Finished;
                CommandAction::Done(
                    match r {
                        Ok(()) => Ok(None),
                        Err(e) => Err(e),
                    },
                )
            },
            (phase, _) => match phase {
                CommandPhase::ReadingMax => CommandAction::ReadMax,
                CommandPhase::ReadingCurrent { .. } => CommandAction::ReadCurrent,
                CommandPhase::Resolving { current, max } => CommandAction::Resolve { current, max },
                CommandPhase::Saving { current, .. } => CommandAction::SaveState { value: current },
                CommandPhase::Setting { value } => CommandAction::SetBrightness { value },
                CommandPhase::Transitioning { value } => CommandAction::Transition { value },
                CommandPhase::Loading => CommandAction::LoadState,
                CommandPhase::Removing => CommandAction::RemoveState,
                CommandPhase::Finished => CommandAction::Done(Ok(None)),
            },
        }
    }

    fn start_change(&mut self, value: u32) -> (action: CommandAction)
        ensures
            final(self).kind() == old(self).kind(),
            final(self).device_id() == old(self).device_id(),
            final(self).phase() == change_phase(old(self).kind(), value),
            action == change_action(old(self).kind(), value),
    {
        if let CommandKind::SetBrightness { immediate: true, .. } = self.kind {
            self.phase = CommandPhase::Setting { value };
            CommandAction::SetBrightness { value }
        } else {
            self.phase = CommandPhase::Transitioning { value };
            CommandAction::Transition { value }
        }
    }
}

/// `restore` forgets the saved brightness only once the device has moved to
/// it: a failed transition ends the command with that failure, and the saved
/// brightness is kept.
pub proof fn law_restore_forgets_only_after_success(
    device_id: Seq<char>,
    value: u32,
    result: Result<(), BacklightError>,
    next: CommandPhase,
    action: CommandAction,
)
    requires
        command_step(CommandKind::Restore, device_id, CommandPhase::Transitioning { value }, CommandEvent::TransitionDone(result), next, action),
    ensures
        result is Ok ==> action == CommandAction::RemoveState,
        result matches Err(e) ==> action == CommandAction::Done(Err(CliError::Backlight(e))) && next
            == CommandPhase::Finished,
{
}

/// `restore` with nothing saved for the device fails, naming the device, and
/// changes nothing.
pub proof fn law_restore_needs_saved_brightness(device_id: Seq<char>, next: CommandPhase, action: CommandAction)
    requires
        command_step(CommandKind::Restore, device_id, CommandPhase::Loading, CommandEvent::StateLoaded(Ok(None)), next, action),
    ensures
        next == CommandPhase::Finished,
        action matches CommandAction::Done(Err(CliError::NoSavedBrightness { device })) && device@ == device_id,
{
}

/// `restore` moves the device to the brightness that was saved for it.
pub proof fn law_restore_moves_to_saved_value(device_id: Seq<char>, value: u32, next: CommandPhase, action: CommandAction)
    requires
        command_step(CommandKind::Restore, device_id, CommandPhase::Loading, CommandEvent::StateLoaded(Ok(Some(value))), next, action),
    ensures
        action == (CommandAction::Transition { value }),
{
}

/// `set --save` saves the brightness the device had before the change, and
/// changes it only once that is saved; a failure to save ends the command
/// with nothing changed.
pub proof fn law_set_saves_previous_brightness_first(
    immediate: bool,
    device_id: Seq<char>,
    current: u32,
    max: u32,
    value: u32,
    saved: Result<(), CliError>,
    next1: CommandPhase,
    action1: CommandAction,
    next2: CommandPhase,
    action2: CommandAction,
)
    requires
        command_step(CommandKind::SetBrightness { immediate, save: true }, device_id, CommandPhase::Resolving { current, max },
            CommandEvent::Resolved(value), next1, action1),
        command_step(CommandKind::SetBrightness { immediate, save: true }, device_id, next1, CommandEvent::StateSaved(saved),
            next2, action2),
    ensures
        action1 == (CommandAction::SaveState { value: current }),
        saved is Ok ==> action2 == (if immediate {
            CommandAction::SetBrightness { value }
        } else {
            CommandAction::Transition { value }
        }),
        saved matches Err(e) ==> action2 == CommandAction::Done(Err(e)),
{
}

/// `set` without `--save` changes the brightness straight away: written at
/// once with `--immediate`, by a transition otherwise.
pub proof fn law_set_changes_to_resolved_value(
    immediate: bool,
    device_id: Seq<char>,
    current: u32,
    max: u32,
    value: u32,
    next: CommandPhase,
    action: CommandAction,
)
    requires
        command_step(CommandKind::SetBrightness { immediate, save: false }, device_id, CommandPhase::Resolving { current, max },
            CommandEvent::Resolved(value), next, action),
    ensures
        immediate ==> action == (CommandAction::SetBrightness { value }),
        !immediate ==> action == (CommandAction::Transition { value }),
{
}

/// Each command starts where it must: `max` and every `set` (whatever its
/// flags) read the maximum brightness first, `get` reads the current
/// brightness, and `restore` looks up the saved brightness.
pub proof fn law_first_actions(immediate: bool, save: bool)
    ensures
        first_phase(CommandKind::Max) == CommandPhase::ReadingMax,
        pending_command_action(first_phase(CommandKind::Max)) == CommandAction::ReadMax,
        first_phase(CommandKind::SetBrightness { immediate, save }) == CommandPhase::ReadingMax,
        pending_command_action(first_phase(CommandKind::SetBrightness { immediate, save })) == CommandAction::ReadMax,
        pending_command_action(first_phase(CommandKind::Get)) == CommandAction::ReadCurrent,
        pending_command_action(first_phase(CommandKind::Restore)) == CommandAction::LoadState,
{
}

/// `max` prints exactly the maximum brightness the device reported.
pub proof fn law_max_prints_the_maximum_read(
    device_id: Seq<char>,
    max: u32,
    next: CommandPhase,
    action: CommandAction,
)
    requires
        command_step(CommandKind::Max, device_id, CommandPhase::ReadingMax, CommandEvent::MaxRead(Ok(max)), next, action),
    ensures
        next == CommandPhase::Finished,
        action == CommandAction::Done(Ok(Some(max))),
{
}

/// `get` prints exactly the current brightness the device reported.
pub proof fn law_get_prints_the_brightness_read(
    device_id: Seq<char>,
    any_max: u32,
    current: u32,
    next: CommandPhase,
    action: CommandAction,
)
    requires
        command_step(CommandKind::Get, device_id, CommandPhase::ReadingCurrent { max: any_max },
            CommandEvent::CurrentRead(Ok(current)), next, action),
    ensures
        next == CommandPhase::Finished,
        action == CommandAction::Done(Ok(Some(current))),
{
}

/// Every `set`, whatever its flags, reads the maximum and then the current
/// brightness, and asks for its argument to be resolved against exactly the
/// two values the device reported.
pub proof fn law_set_resolves_against_values_read(
    immediate: bool,
    save: bool,
    device_id: Seq<char>,
    max: u32,
    current: u32,
    next1: CommandPhase,
    action1: CommandAction,
    next2: CommandPhase,
    action2: CommandAction,
)
    requires
        command_step(CommandKind::SetBrightness { immediate, save }, device_id, CommandPhase::ReadingMax,
            CommandEvent::MaxRead(Ok(max)), next1, action1),
        command_step(CommandKind::SetBrightness { immediate, save }, device_id, next1,
            CommandEvent::CurrentRead(Ok(current)), next2, action2),
    ensures
        action1 == CommandAction::ReadCurrent,
        action2 == (CommandAction::Resolve { current, max }),
        next2 == (CommandPhase::Resolving { current, max }),
{
}

/// A `set` that has faded to its value ends successfully there, leaving the
/// saved brightness alone.
pub proof fn law_set_ends_after_its_fade(
    immediate: bool,
    save: bool,
    device_id: Seq<char>,
    value: u32,
    next: CommandPhase,
    action: CommandAction,
)
    requires
        command_step(CommandKind::SetBrightness { immediate, save }, device_id, CommandPhase::Transitioning { value },
            CommandEvent::TransitionDone(Ok(())), next, action),
    ensures
        next == CommandPhase::Finished,
        action == CommandAction::Done(Ok(None)),
{
}

/// Only `restore` forgets or looks up the saved brightness: a `set`, in any
/// phase it can reach and on any answer, never asks to remove or load the
/// saved brightness and never moves to removing it.
pub proof fn law_set_never_forgets_saved_brightness(
    immediate: bool,
    save: bool,
    device_id: Seq<char>,
    phase: CommandPhase,
    event: CommandEvent,
    next: CommandPhase,
    action: CommandAction,
)
    requires
        phase != CommandPhase::Removing,
        phase != CommandPhase::Loading,
        command_step(CommandKind::SetBrightness { immediate, save }, device_id, phase, event, next, action),
    ensures
        action != CommandAction::RemoveState,
        action != CommandAction::LoadState,
        next != CommandPhase::Removing,
        next != CommandPhase::Loading,
{
}

} // verus!
