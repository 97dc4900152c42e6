//! Functions to be used as handlers for key bindings.

use vstd::prelude::*;

use crate::defs::{Command, CommandView, KeyCode};
use crate::enums::{Action, Direction};
use crate::input_manager::ModeView;
use crate::keys;
use crate::mode_name;
use crate::text::{i64_to_string, signed_decimal};

verus! {

/// Abstract state of an input context: the command being built, the commands sent to the
/// compositor so far, the known input modes, the key that triggered the handler and the processes
/// requested so far.
#[verifier::ext_equal]
pub struct ContextState {
    pub command: CommandView,
    pub executed: Seq<CommandView>,
    pub modes: Seq<ModeView>,
    pub code: KeyCode,
    pub spawned: Seq<Seq<Seq<char>>>,
}

impl ContextState {
    /// This state with the command under construction replaced.
    pub open spec fn with_command(self, command: CommandView) -> ContextState {
        ContextState {
            command: command,
            executed: self.executed,
            modes: self.modes,
            code: self.code,
            spawned: self.spawned,
        }
    }

    /// This state after sending the command under construction to the compositor.
    pub open spec fn executing(self) -> ContextState {
        ContextState {
            command: self.command,
            executed: self.executed.push(self.command),
            modes: self.modes,
            code: self.code,
            spawned: self.spawned,
        }
    }

    /// This state after a request to switch the mode named `name` on or off: only a known mode
    /// changes.
    pub open spec fn activating(self, name: Seq<char>, active: bool) -> ContextState {
        ContextState {
            command: self.command,
            executed: self.executed,
            modes: activate_in(self.modes, name, active),
            code: self.code,
            spawned: self.spawned,
        }
    }

    /// This state after a request to run the given command line.
    pub open spec fn spawning(self, command: Seq<Seq<char>>) -> ContextState {
        ContextState {
            command: self.command,
            executed: self.executed,
            modes: self.modes,
            code: self.code,
            spawned: self.spawned.push(command),
        }
    }
}

/// Whether `i` is the position of the first mode named `name`.
pub open spec fn is_first_named(modes: Seq<ModeView>, name: Seq<char>, i: int) -> bool {
    &&& 0 <= i < modes.len()
    &&& modes[i].name == name
    &&& forall|k: int| 0 <= k < i ==> modes[k].name != name
}

/// Position of the first mode named `name`, or the number of modes when there is none.
pub open spec fn first_named(modes: Seq<ModeView>, name: Seq<char>) -> int {
    if exists|i: int| is_first_named(modes, name, i) {
        choose|i: int| is_first_named(modes, name, i)
    } else {
        modes.len() as int
    }
}

/// The modes with the activity of the first one named `name` set to `active`.
pub open spec fn activate_in(modes: Seq<ModeView>, name: Seq<char>, active: bool) -> Seq<ModeView> {
    let i = first_named(modes, name);
    if i < modes.len() {
        modes.update(i, modes[i].with_active(active))
    } else {
        modes
    }
}

/// There is at most one first mode of a name.
pub proof fn lemma_first_named_unique(modes: Seq<ModeView>, name: Seq<char>, i: int)
    requires
        is_first_named(modes, name, i),
    ensures
        first_named(modes, name) == i,
{
    let j = first_named(modes, name);
    assert(is_first_named(modes, name, j));
    if j < i {
        assert(modes[j].name != name);
    } else if i < j {
        assert(modes[i].name != name);
    }
}

/// When no mode is named `name`, the first one named so lies past the end.
pub proof fn lemma_first_named_absent(modes: Seq<ModeView>, name: Seq<char>)
    requires
        forall|k: int| 0 <= k < modes.len() ==> modes[k].name != name,
    ensures
        first_named(modes, name) == modes.len(),
{
}

/// Switching a mode on or off a second time overrides the first switch.
pub proof fn lemma_activation_overrides(
    modes: Seq<ModeView>,
    name: Seq<char>,
    first: bool,
    second: bool,
)
    ensures
        activate_in(activate_in(modes, name, first), name, second) == activate_in(
            modes,
            name,
            second,
        ),
{
    let once = activate_in(modes, name, first);
    let i = first_named(modes, name);
    if i < modes.len() {
        assert(is_first_named(modes, name, i));
        assert(is_first_named(once, name, i));
        lemma_first_named_unique(once, name, i);
        assert(once.update(i, once[i].with_active(second)) =~= modes.update(
            i,
            modes[i].with_active(second),
        ));
    } else {
        assert(once == modes);
    }
}

/// The number printed on the key with the given code, for the keys of the number row.
pub open spec fn key_code_number(code: KeyCode) -> Option<i32> {
    if keys::KEY_1 <= code && code <= keys::KEY_9 {
        Some((code - keys::KEY_1 + 1) as i32)
    } else if code == keys::KEY_10 {
        Some(0)
    } else {
        None
    }
}

/// The textual form of a command line.
pub open spec fn command_line_view(command: Seq<String>) -> Seq<Seq<char>> {
    command.map_values(|s: String| s@)
}

/// Trait for contexts passed for key binding handler functions.
///
/// Context allows to
/// - build command executed by compositor
/// - activate/deactivate input modes
pub trait InputContext {
    /// Abstract state of the context.
    spec fn spec_state(&self) -> ContextState;

    /// Sets command action.
    fn set_action(&mut self, action: Action)
        ensures
            final(self).spec_state() == old(self).spec_state().with_command(
                old(self).spec_state().command.with_action(action),
            ),
    ;

    /// Sets command direction.
    fn set_direction(&mut self, direction: Direction)
        ensures
            final(self).spec_state() == old(self).spec_state().with_command(
                old(self).spec_state().command.with_direction(direction),
            ),
    ;

    /// Sets command magnitude.
    fn set_magnitude(&mut self, magnitude: i32)
        ensures
            final(self).spec_state() == old(self).spec_state().with_command(
                old(self).spec_state().command.with_magnitude(magnitude),
            ),
    ;

    /// Sets command string.
    fn set_string(&mut self, string: String)
        ensures
            final(self).spec_state() == old(self).spec_state().with_command(
                old(self).spec_state().command.with_string(string@),
            ),
    ;

    /// Gets command action.
    fn get_action(&mut self) -> (result: Action)
        ensures
            result == old(self).spec_state().command.action,
            final(self).spec_state() == old(self).spec_state(),
    ;

    /// Gets command direction.
    fn get_direction(&mut self) -> (result: Direction)
        ensures
            result == old(self).spec_state().command.direction,
            final(self).spec_state() == old(self).spec_state(),
    ;

    /// Gets command magnitude.
    fn get_magnitude(&mut self) -> (result: i32)
        ensures
            result == old(self).spec_state().command.magnitude,
            final(self).spec_state() == old(self).spec_state(),
    ;

    /// Gets command string.
    fn get_string(&mut self) -> (result: String)
        ensures
            result@ == old(self).spec_state().command.string,
            final(self).spec_state() == old(self).spec_state(),
    ;

    /// Tells compositor to execute built command.
    fn execute_command(&mut self)
        ensures
            final(self).spec_state() == old(self).spec_state().executing(),
    ;

    /// Clears command.
    fn clean_command(&mut self)
        ensures
            final(self).spec_state() == old(self).spec_state().with_command(CommandView::empty()),
    ;

    /// Activates/deactivates input mode.
    fn activate_mode(&mut self, mode_name: &'static str, active: bool)
        ensures
            final(self).spec_state() == old(self).spec_state().activating(mode_name@, active),
    ;

    /// Asks for the given command line to be run as a new process.
    fn spawn_process(&mut self, command: Vec<String>)
        ensures
            final(self).spec_state() == old(self).spec_state().spawning(
                command_line_view(command@),
            ),
    ;

    /// Returns the code of key that triggered the binging executor.
    fn get_code(&self) -> (result: KeyCode)
        ensures
            result == self.spec_state().code,
    ;

    /// Just like `get_code` but returns number if number key was pressed, `None` otherwise.
    fn get_code_as_number(&self) -> (result: Option<i32>)
        ensures
            result == key_code_number(self.spec_state().code),
    ;
}

/// Process identifier of `nix`.
#[verifier::external_type_specification]
#[verifier::external_body]
pub struct ExPid(nix::unistd::Pid);

/// Returns the identifier of this process with `nix::unistd::getpid`. Nothing is claimed of it.
#[verifier::external_body]
fn own_process_id() -> (result: nix::unistd::Pid) {
    nix::unistd::getpid()
}

/// Sends `SIGTERM` to the process `pid` with `nix::sys::signal::kill`. Nothing is claimed of the
/// outcome.
#[verifier::external_body]
fn send_terminate_signal(pid: nix::unistd::Pid) {
    let _ = nix::sys::signal::kill(pid, nix::sys::signal::Signal::SIGTERM);
}

/// State after putting an action: the action is set in the command, which is not executed.
pub open spec fn after_put_action(s: ContextState, action: Action) -> ContextState {
    s.with_command(s.command.with_action(action))
}

/// State after putting a direction: the direction is set in the command, which is not executed.
pub open spec fn after_put_direction(s: ContextState, direction: Direction) -> ContextState {
    s.with_command(s.command.with_direction(direction))
}

/// State after setting action and direction and executing the command.
pub open spec fn after_command(s: ContextState, action: Action, direction: Direction) -> ContextState {
    s.with_command(s.command.with_action(action).with_direction(direction)).executing()
}

/// State after setting action, direction and a magnitude of one and executing the command.
pub open spec fn after_single_step(s: ContextState, action: Action, direction: Direction) -> ContextState {
    s.with_command(s.command.with_action(action).with_direction(direction).with_magnitude(1)).executing()
}

/// State after a workspace command: when the triggering key is a number key, the command with the
/// given action, workspace direction, magnitude one and the number as string is executed.
pub open spec fn after_workspace_command(s: ContextState, action: Action) -> ContextState {
    match key_code_number(s.code) {
        Some(number) => s.with_command(
            s.command.with_action(action).with_direction(Direction::Workspace).with_magnitude(
                1,
            ).with_string(signed_decimal(number as int)),
        ).executing(),
        None => s,
    }
}

/// State after setting the magnitude from a number key: the number becomes the magnitude when the
/// triggering key is a number key.
pub open spec fn after_put_magnitude(s: ContextState) -> ContextState {
    match key_code_number(s.code) {
        Some(number) => s.with_command(s.command.with_magnitude(number)),
        None => s,
    }
}

/// Helper function to putting actions.
pub fn put_action<C: InputContext>(context: &mut C, action: Action)
    ensures
        final(context).spec_state() == after_put_action(old(context).spec_state(), action),
{
    context.set_action(action);
}

/// Helper function to putting directions.
pub fn put_direction<C: InputContext>(context: &mut C, direction: Direction)
    ensures
        final(context).spec_state() == after_put_direction(old(context).spec_state(), direction),
{
    context.set_direction(direction);
}

/// Sets the command action and direction and executes it.
fn command<C: InputContext>(context: &mut C, action: Action, direction: Direction)
    ensures
        final(context).spec_state() == after_command(old(context).spec_state(), action, direction),
{
    context.set_action(action);
    context.set_direction(direction);
    context.execute_command();
}

/// Sets the command action and direction with magnitude one and executes it.
fn single_step<C: InputContext>(context: &mut C, action: Action, direction: Direction)
    ensures
        final(context).spec_state() == after_single_step(
            old(context).spec_state(),
            action,
            direction,
        ),
{
    context.set_action(action);
    context.set_direction(direction);
    context.set_magnitude(1);
    context.execute_command();
}

/// Executes a workspace command named by the number key that triggered the binding.
fn workspace_command<C: InputContext>(context: &mut C, action: Action)
    ensures
        final(context).spec_state() == after_workspace_command(old(context).spec_state(), action),
{
    if let Some(number) = context.get_code_as_number() {
        context.set_action(action);
        context.set_direction(Direction::Workspace);
        context.set_magnitude(1);
        context.set_string(i64_to_string(number as i64));
        context.execute_command();
    }
}

/// Does nothing.
pub fn nop<C: InputContext>(context: &mut C)
    ensures
        final(context).spec_state() == old(context).spec_state(),
{
}

/// Cleans compositor command.
pub fn clean_command<C: InputContext>(context: &mut C)
    ensures
        final(context).spec_state() == old(context).spec_state().with_command(
            CommandView::empty(),
        ),
{
    context.clean_command();
}

/// Shuts down the application by sending `SIGTERM` to itself.
pub fn quit<C: InputContext>(context: &mut C)
    ensures
        final(context).spec_state() == old(context).spec_state(),
{
    send_terminate_signal(own_process_id());
}

/// Sets focus action in command but do not execute.
pub fn put_focus<C: InputContext>(context: &mut C)
    ensures
        final(context).spec_state() == after_put_action(old(context).spec_state(), Action::Focus),
{
    put_action(context, Action::Focus);
}

/// Sets swap action in command but do not execute.
pub fn put_swap<C: InputContext>(context: &mut C)
    ensures
        final(context).spec_state() == after_put_action(old(context).spec_state(), Action::Swap),
{
    put_action(context, Action::Swap);
}

/// Sets jump action in command but do not execute.
pub fn put_jump<C: InputContext>(context: &mut C)
    ensures
        final(context).spec_state() == after_put_action(old(context).spec_state(), Action::Jump),
{
    put_action(context, Action::Jump);
}

/// Sets dive action in command but do not execute.
pub fn put_dive<C: InputContext>(context: &mut C)
    ensures
        final(context).spec_state() == after_put_action(old(context).spec_state(), Action::Dive),
{
    put_action(context, Action::Dive);
}

/// Sets move action in command but do not execute.
pub fn put_move<C: InputContext>(context: &mut C)
    ensures
        final(context).spec_state() == after_put_action(old(context).spec_state(), Action::Move),
{
    put_action(context, Action::Move);
}

/// Sets north direction in command but do not execute.
pub fn put_north<C: InputContext>(context: &mut C)
    ensures
        final(context).spec_state() == after_put_direction(
            old(context).spec_state(),
            Direction::North,
        ),
{
    put_direction(context, Direction::North);
}

/// Sets east direction in command but do not execute.
pub fn put_east<C: InputContext>(context: &mut C)
    ensures
        final(context).spec_state() == after_put_direction(
            old(context).spec_state(),
            Direction::East,
        ),
{
    put_direction(context, Direction::East);
}

/// Sets south direction in command but do not execute.
pub fn put_south<C: InputContext>(context: &mut C)
    ensures
        final(context).spec_state() == after_put_direction(
            old(context).spec_state(),
            Direction::South,
        ),
{
    put_direction(context, Direction::South);
}

/// Sets west direction in command but do not execute.
pub fn put_west<C: InputContext>(context: &mut C)
    ensures
        final(context).spec_state() == after_put_direction(
            old(context).spec_state(),
            Direction::West,
        ),
{
    put_direction(context, Direction::West);
}

/// Sets forward direction in command but do not execute.
pub fn put_forward<C: InputContext>(context: &mut C)
    ensures
        final(context).spec_state() == after_put_direction(
            old(context).spec_state(),
            Direction::Forward,
        ),
{
    put_direction(context, Direction::Forward);
}

/// Sets backward direction in command but do not execute.
pub fn put_backward<C: InputContext>(context: &mut C)
    ensures
        final(context).spec_state() == after_put_direction(
            old(context).spec_state(),
            Direction::Backward,
        ),
{
    put_direction(context, Direction::Backward);
}

/// Sets begin direction in command but do not execute.
pub fn put_begin<C: InputContext>(context: &mut C)
    ensures
        final(context).spec_state() == after_put_direction(
            old(context).spec_state(),
            Direction::Begin,
        ),
{
    put_direction(context, Direction::Begin);
}

/// Sets end direction in command but do not execute.
pub fn put_end<C: InputContext>(context: &mut C)
    ensures
        final(context).spec_state() == after_put_direction(
            old(context).spec_state(),
            Direction::End,
        ),
{
    put_direction(context, Direction::End);
}

/// Sets magnitude of the command to the number on the pressed key.
pub fn put_magnitude<C: InputContext>(context: &mut C)
    ensures
        final(context).spec_state() == after_put_magnitude(old(context).spec_state()),
{
    if let Some(number) = context.get_code_as_number() {
        context.set_magnitude(number);
    }
}

/// Executes command toggling anchorization of the selected frame.
pub fn toggle_anchorization<C: InputContext>(context: &mut C)
    ensures
        final(context).spec_state() == after_command(
            old(context).spec_state(),
            Action::Anchor,
            Direction::Empty,
        ),
{
    command(context, Action::Anchor, Direction::Empty);
}

/// Executes command changing selected frame geometry to horizontal.
pub fn horizontalize<C: InputContext>(context: &mut C)
    ensures
        final(context).spec_state() == after_command(
            old(context).spec_state(),
            Action::Configure,
            Direction::East,
        ),
{
    command(context, Action::Configure, Direction::East);
}

/// Executes command changing selected frame geometry to vertical.
pub fn verticalize<C: InputContext>(context: &mut C)
    ensures
        final(context).spec_state() == after_command(
            old(context).spec_state(),
            Action::Configure,
            Direction::North,
        ),
{
    command(context, Action::Configure, Direction::North);
}

/// Executes command changing selected frame geometry to stacked.
pub fn stackize<C: InputContext>(context: &mut C)
    ensures
        final(context).spec_state() == after_command(
            old(context).spec_state(),
            Action::Configure,
            Direction::End,
        ),
{
    command(context, Action::Configure, Direction::End);
}

/// Executes command for circling surfaces forward.
pub fn cicle_history_forward<C: InputContext>(context: &mut C)
    ensures
        final(context).spec_state() == after_single_step(
            old(context).spec_state(),
            Action::Focus,
            Direction::Forward,
        ),
{
    single_step(context, Action::Focus, Direction::Forward);
}

/// Executes command for circling surfaces backward.
pub fn cicle_history_backward<C: InputContext>(context: &mut C)
    ensures
        final(context).spec_state() == after_single_step(
            old(context).spec_state(),
            Action::Focus,
            Direction::Backward,
        ),
{
    single_step(context, Action::Focus, Direction::Backward);
}

/// Executes command focusing surface on the right.
pub fn focus_right<C: InputContext>(context: &mut C)
    ensures
        final(context).spec_state() == after_single_step(
            old(context).spec_state(),
            Action::Focus,
            Direction::East,
        ),
{
    single_step(context, Action::Focus, Direction::East);
}

/// Executes command focusing surface below.
pub fn focus_down<C: InputContext>(context: &mut C)
    ensures
        final(context).spec_state() == after_single_step(
            old(context).spec_state(),
            Action::Focus,
            Direction::South,
        ),
{
    single_step(context, Action::Focus, Direction::South);
}

/// Executes command focusing surface on the left.
pub fn focus_left<C: InputContext>(context: &mut C)
    ensures
        final(context).spec_state() == after_single_step(
            old(context).spec_state(),
            Action::Focus,
            Direction::West,
        ),
{
    single_step(context, Action::Focus, Direction::West);
}

/// Executes command focusing surface above.
pub fn focus_up<C: InputContext>(context: &mut C)
    ensures
        final(context).spec_state() == after_single_step(
            old(context).spec_state(),
            Action::Focus,
            Direction::North,
        ),
{
    single_step(context, Action::Focus, Direction::North);
}

/// Executes command jumping over surface on the right.
pub fn jump_right<C: InputContext>(context: &mut C)
    ensures
        final(context).spec_state() == after_single_step(
            old(context).spec_state(),
            Action::Jump,
            Direction::East,
        ),
{
    single_step(context, Action::Jump, Direction::East);
}

/// Executes command jumping over surface below.
pub fn jump_down<C: InputContext>(context: &mut C)
    ensures
        final(context).spec_state() == after_single_step(
            old(context).spec_state(),
            Action::Jump,
            Direction::South,
        ),
{
    single_step(context, Action::Jump, Direction::South);
}

/// Executes command jumping over surface on the left.
pub fn jump_left<C: InputContext>(context: &mut C)
    ensures
        final(context).spec_state() == after_single_step(
            old(context).spec_state(),
            Action::Jump,
            Direction::West,
        ),
{
    single_step(context, Action::Jump, Direction::West);
}

/// Executes command jumping over surface above.
pub fn jump_up<C: InputContext>(context: &mut C)
    ensures
        final(context).spec_state() == after_single_step(
            old(context).spec_state(),
            Action::Jump,
            Direction::North,
        ),
{
    single_step(context, Action::Jump, Direction::North);
}

/// Jumps frame one level higher.
pub fn exalt<C: InputContext>(context: &mut C)
    ensures
        final(context).spec_state() == after_command(
            old(context).spec_state(),
            Action::Jump,
            Direction::Begin,
        ),
{
    command(context, Action::Jump, Direction::Begin);
}

/// Adds new container just above selection.
pub fn ramify<C: InputContext>(context: &mut C)
    ensures
        final(context).spec_state() == after_command(
            old(context).spec_state(),
            Action::Jump,
            Direction::End,
        ),
{
    command(context, Action::Jump, Direction::End);
}

/// Executes command diving into frame on the right.
pub fn dive_right<C: InputContext>(context: &mut C)
    ensures
        final(context).spec_state() == after_single_step(
            old(context).spec_state(),
            Action::Dive,
            Direction::East,
        ),
{
    single_step(context, Action::Dive, Direction::East);
}

/// Executes command diving into frame below.
pub fn dive_down<C: InputContext>(context: &mut C)
    ensures
        final(context).spec_state() == after_single_step(
            old(context).spec_state(),
            Action::Dive,
            Direction::South,
        ),
{
    single_step(context, Action::Dive, Direction::South);
}

/// Executes command diving into frame on the left.
pub fn dive_left<C: InputContext>(context: &mut C)
    ensures
        final(context).spec_state() == after_single_step(
            old(context).spec_state(),
            Action::Dive,
            Direction::West,
        ),
{
    single_step(context, Action::Dive, Direction::West);
}

/// Executes command diving into frame above.
pub fn dive_up<C: InputContext>(context: &mut C)
    ensures
        final(context).spec_state() == after_single_step(
            old(context).spec_state(),
            Action::Dive,
            Direction::North,
        ),
{
    single_step(context, Action::Dive, Direction::North);
}

/// Jumps selected frame to workspace (does not focus workspace).
///
/// E.g. if key [5] was pressed, will jump into workspace titled "5".
pub fn jump_to_workspace<C: InputContext>(context: &mut C)
    ensures
        final(context).spec_state() == after_workspace_command(
            old(context).spec_state(),
            Action::Jump,
        ),
{
    workspace_command(context, Action::Jump);
}

/// Jumps selected frame to workspace (focuses workspace).
///
/// E.g. if key [5] was pressed, will dive into workspace titled "5".
pub fn dive_to_workspace<C: InputContext>(context: &mut C)
    ensures
        final(context).spec_state() == after_workspace_command(
            old(context).spec_state(),
            Action::Dive,
        ),
{
    workspace_command(context, Action::Dive);
}

/// Focuses the workspace basing on key code.
///
/// E.g. if key [5] was pressed, workspace titled "5" will be focused.
pub fn focus_workspace<C: InputContext>(context: &mut C)
    ensures
        final(context).spec_state() == after_workspace_command(
            old(context).spec_state(),
            Action::Focus,
        ),
{
    workspace_command(context, Action::Focus);
}

/// Switches normal mode off and insert mode on.
pub fn swap_mode_normal_to_insert<C: InputContext>(context: &mut C)
    ensures
        final(context).spec_state() == old(context).spec_state().activating(
            mode_name::NORMAL@,
            false,
        ).activating(mode_name::INSERT@, true),
{
    context.activate_mode(mode_name::NORMAL, false);
    context.activate_mode(mode_name::INSERT, true);
}

/// Switches insert mode off and normal mode on.
pub fn swap_mode_insert_to_normal<C: InputContext>(context: &mut C)
    ensures
        final(context).spec_state() == old(context).spec_state().activating(
            mode_name::INSERT@,
            false,
        ).activating(mode_name::NORMAL@, true),
{
    context.activate_mode(mode_name::INSERT, false);
    context.activate_mode(mode_name::NORMAL, true);
}

/// Handler of a key binding.
#[derive(Clone, Debug, PartialEq, Eq)]
pub enum Executor {
    Nop,
    CleanCommand,
    Quit,
    PutFocus,
    PutSwap,
    PutJump,
    PutDive,
    PutMove,
    PutNorth,
    PutEast,
    PutSouth,
    PutWest,
    PutForward,
    PutBackward,
    PutBegin,
    PutEnd,
    PutMagnitude,
    Horizontalize,
    Verticalize,
    Stackize,
    ToggleAnchorization,
    CicleHistoryForward,
    CicleHistoryBackward,
    FocusRight,
    FocusDown,
    FocusLeft,
    FocusUp,
    JumpRight,
    JumpDown,
    JumpLeft,
    JumpUp,
    Exalt,
    Ramify,
    DiveRight,
    DiveDown,
    DiveLeft,
    DiveUp,
    JumpToWorkspace,
    DiveToWorkspace,
    FocusWorkspace,
    SwapModeNormalToInsert,
    SwapModeInsertToNormal,
    SpawnProcess(Vec<String>),
}

impl Executor {
    /// State of a context after this handler ran on it.
    pub open spec fn effect(self, s: ContextState) -> ContextState {
        match self {
            Executor::Nop => s,
            Executor::CleanCommand => s.with_command(CommandView::empty()),
            Executor::Quit => s,
            Executor::PutFocus => after_put_action(s, Action::Focus),
            Executor::PutSwap => after_put_action(s, Action::Swap),
            Executor::PutJump => after_put_action(s, Action::Jump),
            Executor::PutDive => after_put_action(s, Action::Dive),
            Executor::PutMove => after_put_action(s, Action::Move),
            Executor::PutNorth => after_put_direction(s, Direction::North),
            Executor::PutEast => after_put_direction(s, Direction::East),
            Executor::PutSouth => after_put_direction(s, Direction::South),
            Executor::PutWest => after_put_direction(s, Direction::West),
            Executor::PutForward => after_put_direction(s, Direction::Forward),
            Executor::PutBackward => after_put_direction(s, Direction::Backward),
            Executor::PutBegin => after_put_direction(s, Direction::Begin),
            Executor::PutEnd => after_put_direction(s, Direction::End),
            Executor::PutMagnitude => after_put_magnitude(s),
            Executor::Horizontalize => after_command(s, Action::Configure, Direction::East),
            Executor::Verticalize => after_command(s, Action::Configure, Direction::North),
            Executor::Stackize => after_command(s, Action::Configure, Direction::End),
            Executor::ToggleAnchorization => after_command(s, Action::Anchor, Direction::Empty),
            Executor::CicleHistoryForward => after_single_step(s, Action::Focus, Direction::Forward),
            Executor::CicleHistoryBackward => after_single_step(
                s,
                Action::Focus,
                Direction::Backward,
            ),
            Executor::FocusRight => after_single_step(s, Action::Focus, Direction::East),
            Executor::FocusDown => after_single_step(s, Action::Focus, Direction::South),
            Executor::FocusLeft => after_single_step(s, Action::Focus, Direction::West),
            Executor::FocusUp => after_single_step(s, Action::Focus, Direction::North),
            Executor::JumpRight => after_single_step(s, Action::Jump, Direction::East),
            Executor::JumpDown => after_single_step(s, Action::Jump, Direction::South),
            Executor::JumpLeft => after_single_step(s, Action::Jump, Direction::West),
            Executor::JumpUp => after_single_step(s, Action::Jump, Direction::North),
            Executor::Exalt => after_command(s, Action::Jump, Direction::Begin),
            Executor::Ramify => after_command(s, Action::Jump, Direction::End),
            Executor::DiveRight => after_single_step(s, Action::Dive, Direction::East),
            Executor::DiveDown => after_single_step(s, Action::Dive, Direction::South),
            Executor::DiveLeft => after_single_step(s, Action::Dive, Direction::West),
            Executor::DiveUp => after_single_step(s, Action::Dive, Direction::North),
            Executor::JumpToWorkspace => after_workspace_command(s, Action::Jump),
            Executor::DiveToWorkspace => after_workspace_command(s, Action::Dive),
            Executor::FocusWorkspace => after_workspace_command(s, Action::Focus),
            Executor::SwapModeNormalToInsert => s.activating(mode_name::NORMAL@, false).activating(
                mode_name::INSERT@,
                true,
            ),
            Executor::SwapModeInsertToNormal => s.activating(mode_name::INSERT@, false).activating(
                mode_name::NORMAL@,
                true,
            ),
            Executor::SpawnProcess(command) => s.spawning(command_line_view(command@)),
        }
    }

    /// Runs this handler on the given context.
    pub fn execute<C: InputContext>(&self, context: &mut C)
        ensures
            final(context).spec_state() == self.effect(old(context).spec_state()),
    {
        match self {
            Executor::Nop => nop(context),
            Executor::CleanCommand => clean_command(context),
            Executor::Quit => quit(context),
            Executor::PutFocus => put_focus(context),
            Executor::PutSwap => put_swap(context),
            Executor::PutJump => put_jump(context),
            Executor::PutDive => put_dive(context),
            Executor::PutMove => put_move(context),
            Executor::PutNorth => put_north(context),
            Executor::PutEast => put_east(context),
            Executor::PutSouth => put_south(context),
            Executor::PutWest => put_west(context),
            Executor::PutForward => put_forward(context),
            Executor::PutBackward => put_backward(context),
            Executor::PutBegin => put_begin(context),
            Executor::PutEnd => put_end(context),
            Executor::PutMagnitude => put_magnitude(context),
            Executor::Horizontalize => horizontalize(context),
            Executor::Verticalize => verticalize(context),
            Executor::Stackize => stackize(context),
            Executor::ToggleAnchorization => toggle_anchorization(context),
            Executor::CicleHistoryForward => cicle_history_forward(context),
            Executor::CicleHistoryBackward => cicle_history_backward(context),
            Executor::FocusRight => focus_right(context),
            Executor::FocusDown => focus_down(context),
            Executor::FocusLeft => focus_left(context),
            Executor::FocusUp => focus_up(context),
            Executor::JumpRight => jump_right(context),
            Executor::JumpDown => jump_down(context),
            Executor::JumpLeft => jump_left(context),
            Executor::JumpUp => jump_up(context),
            Executor::Exalt => exalt(context),
            Executor::Ramify => ramify(context),
            Executor::DiveRight => dive_right(context),
            Executor::DiveDown => dive_down(context),
            Executor::DiveLeft => dive_left(context),
            Executor::DiveUp => dive_up(context),
            Executor::JumpToWorkspace => jump_to_workspace(context),
            Executor::DiveToWorkspace => dive_to_workspace(context),
            Executor::FocusWorkspace => focus_workspace(context),
            Executor::SwapModeNormalToInsert => swap_mode_normal_to_insert(context),
            Executor::SwapModeInsertToNormal => swap_mode_insert_to_normal(context),
            Executor::SpawnProcess(command) => context.spawn_process(command.clone()),
        }
    }
}

/// The opposite of a direction on the screen: north and south, east and west.
pub open spec fn opposite_direction(direction: Direction) -> Direction {
    match direction {
        Direction::North => Direction::South,
        Direction::South => Direction::North,
        Direction::East => Direction::West,
        Direction::West => Direction::East,
        other => other,
    }
}

/// The action and the side of the screen that the name of a directional handler gives: `Focus`,
/// `Jump` or `Dive`, towards `Up` (north), `Down` (south), `Left` (west) or `Right` (east).
pub open spec fn handler_heading(executor: Executor) -> Option<(Action, Direction)> {
    match executor {
        Executor::FocusUp => Some((Action::Focus, Direction::North)),
        Executor::FocusDown => Some((Action::Focus, Direction::South)),
        Executor::FocusLeft => Some((Action::Focus, Direction::West)),
        Executor::FocusRight => Some((Action::Focus, Direction::East)),
        Executor::JumpUp => Some((Action::Jump, Direction::North)),
        Executor::JumpDown => Some((Action::Jump, Direction::South)),
        Executor::JumpLeft => Some((Action::Jump, Direction::West)),
        Executor::JumpRight => Some((Action::Jump, Direction::East)),
        Executor::DiveUp => Some((Action::Dive, Direction::North)),
        Executor::DiveDown => Some((Action::Dive, Direction::South)),
        Executor::DiveLeft => Some((Action::Dive, Direction::West)),
        Executor::DiveRight => Some((Action::Dive, Direction::East)),
        _ => None,
    }
}

/// Running a directional handler executes, from any state, a command of one step with the action
/// and towards the side its name gives, keeping the command's string; nothing else changes.
pub proof fn lemma_directional_handlers_go_their_way(executor: Executor, s: ContextState)
    ensures
        handler_heading(executor) matches Some((action, direction)) ==> {
            let after = executor.effect(s);
            let command = CommandView {
                action: action,
                direction: direction,
                magnitude: 1,
                string: s.command.string,
            };
            &&& after.command == command
            &&& after.executed == s.executed.push(command)
            &&& after.modes == s.modes
            &&& after.spawned == s.spawned
        },
{
}

/// The handlers towards opposite sides go opposite ways: for each action, up and down go
/// opposite ways, and so do left and right; all of them execute the same action.
pub proof fn lemma_opposite_handlers(s: ContextState)
    ensures
        Executor::FocusDown.effect(s).command.direction == opposite_direction(
            Executor::FocusUp.effect(s).command.direction,
        ),
        Executor::FocusRight.effect(s).command.direction == opposite_direction(
            Executor::FocusLeft.effect(s).command.direction,
        ),
        Executor::JumpDown.effect(s).command.direction == opposite_direction(
            Executor::JumpUp.effect(s).command.direction,
        ),
        Executor::JumpRight.effect(s).command.direction == opposite_direction(
            Executor::JumpLeft.effect(s).command.direction,
        ),
        Executor::DiveDown.effect(s).command.direction == opposite_direction(
            Executor::DiveUp.effect(s).command.direction,
        ),
        Executor::DiveRight.effect(s).command.direction == opposite_direction(
            Executor::DiveLeft.effect(s).command.direction,
        ),
        Executor::DiveDown.effect(s).command.action == Executor::DiveUp.effect(s).command.action,
        Executor::JumpDown.effect(s).command.action == Executor::JumpUp.effect(s).command.action,
        Executor::FocusDown.effect(s).command.action == Executor::FocusUp.effect(s).command.action,
        Executor::FocusDown.effect(s).command.direction != Executor::FocusUp.effect(s).command.direction,
        Executor::JumpDown.effect(s).command.direction != Executor::JumpUp.effect(s).command.direction,
        Executor::DiveDown.effect(s).command.direction != Executor::DiveUp.effect(s).command.direction,
{
}

} // verus!
