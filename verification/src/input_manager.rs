//! Catching key bindings and executing assigned functions.
//!
//! This functionality is inspired by `vim`. As there we have here modes to be able to change
//! applications behavior depending on which modes are on or off.

use std::collections::HashMap;

use vstd::prelude::*;

use crate::binding_functions::{
    activate_in, command_line_view, first_named, is_first_named, key_code_number,
    lemma_first_named_absent, lemma_first_named_unique, ContextState, Executor, InputContext,
};
use crate::config::{entries_view, entry_view, BindingEntry, KeybindingsConfig};
use crate::defs::{Command, CommandView, KeyCode, KeyValue};
use crate::mode_name;
use crate::enums::{Action, Direction, KeyState};
use crate::keys;
use crate::modifier::ModifierType;
use crate::text::str_eq;

verus! {

broadcast use vstd::std_specs::hash::group_hash_axioms;

/// Enumeration for possible results of catching key.
#[derive(PartialEq, Eq, Structural, Clone, Copy, Debug)]
pub enum KeyCatchResult {
    Caught,
    Passed,
}

/// Structure for identifying key binding.
#[derive(PartialEq, Eq, Structural, Hash, Clone, Copy, Debug)]
pub struct Binding {
    code: KeyCode,
    modifiers: ModifierType,
}

/// The number under which a binding of the given key and modifiers is stored in a mode.
pub open spec fn binding_key(code: KeyCode, modifiers: ModifierType) -> u32 {
    (code * 65536 + modifiers) as u32
}

impl Binding {
    /// Code of the key.
    pub closed spec fn spec_code(self) -> KeyCode {
        self.code
    }

    /// Modifiers held with the key.
    pub closed spec fn spec_modifiers(self) -> ModifierType {
        self.modifiers
    }

    /// The number under which this binding is stored in a mode.
    pub open spec fn spec_key(self) -> u32 {
        binding_key(self.spec_code(), self.spec_modifiers())
    }

    /// `Binding` constructor.
    ///
    /// Key codes are commonly written as `i32`, so this constructor takes one; only its lower
    /// sixteen bits are kept.
    pub fn new(code: i32, modifiers: ModifierType) -> (result: Self)
        ensures
            result.spec_code() == code as KeyCode,
            result.spec_modifiers() == modifiers,
    {
        Binding { code: code as KeyCode, modifiers: modifiers }
    }

    /// `Binding` constructor.
    pub fn create(code: KeyCode, modifiers: ModifierType) -> (result: Self)
        ensures
            result.spec_code() == code,
            result.spec_modifiers() == modifiers,
    {
        Binding { code: code, modifiers: modifiers }
    }

    /// Returns the number under which this binding is stored in a mode.
    fn key(&self) -> (result: u32)
        ensures
            result == self.spec_key(),
    {
        (self.code as u32) * 65536 + self.modifiers as u32
    }
}

/// Two bindings are stored under the same number only when they are equal.
pub proof fn lemma_binding_key_injective(a: Binding, b: Binding)
    requires
        a.spec_key() == b.spec_key(),
    ensures
        a == b,
{
    let ka = a.spec_code() * 65536 + a.spec_modifiers();
    let kb = b.spec_code() * 65536 + b.spec_modifiers();
    assert(ka == kb);
    assert(a.spec_code() == b.spec_code()) by (nonlinear_arith)
        requires
            ka == kb,
            ka == a.spec_code() * 65536 + a.spec_modifiers(),
            kb == b.spec_code() * 65536 + b.spec_modifiers(),
            0 <= a.spec_modifiers() < 65536,
            0 <= b.spec_modifiers() < 65536,
    ;
}

/// Abstract value of a mode: its name, whether it is active and its bindings by number.
#[verifier::ext_equal]
pub struct ModeView {
    pub name: Seq<char>,
    pub active: bool,
    pub bindings: Map<u32, Executor>,
}

impl ModeView {
    /// This mode with its activity replaced.
    pub open spec fn with_active(self, active: bool) -> ModeView {
        ModeView { name: self.name, active: active, bindings: self.bindings }
    }

    /// This mode with one more binding, replacing a binding with the same number.
    pub open spec fn with_binding(self, key: u32, executor: Executor) -> ModeView {
        ModeView { name: self.name, active: self.active, bindings: self.bindings.insert(key, executor) }
    }
}

/// A mode finds the handler bound last to a binding.
pub proof fn lemma_mode_finds_bound_handler(mode: ModeView, binding: Binding, executor: Executor)
    ensures
        mode.with_binding(binding.spec_key(), executor).bindings.contains_key(binding.spec_key()),
        mode.with_binding(binding.spec_key(), executor).bindings[binding.spec_key()] == executor,
{
}

/// Binding a handler leaves the handlers of other bindings as they were.
pub proof fn lemma_mode_keeps_other_bindings(
    mode: ModeView,
    bound: Binding,
    other: Binding,
    executor: Executor,
)
    requires
        bound != other,
    ensures
        mode.with_binding(bound.spec_key(), executor).bindings.contains_key(other.spec_key())
            == mode.bindings.contains_key(other.spec_key()),
        mode.bindings.contains_key(other.spec_key()) ==> mode.with_binding(
            bound.spec_key(),
            executor,
        ).bindings[other.spec_key()] == mode.bindings[other.spec_key()],
{
    if bound.spec_key() == other.spec_key() {
        lemma_binding_key_injective(bound, other);
    }
}

/// Structure representing mode.
pub struct Mode {
    active: bool,
    name: String,
    bindings: HashMap<u32, Executor>,
}

impl View for Mode {
    type V = ModeView;

    closed spec fn view(&self) -> ModeView {
        ModeView { name: self.name@, active: self.active, bindings: self.bindings@ }
    }
}

impl Mode {
    /// `Mode` constructor.
    pub fn new(active: bool, name: String) -> (result: Self)
        ensures
            result@ == (ModeView { name: name@, active: active, bindings: Map::empty() }),
    {
        Mode { active: active, name: name, bindings: HashMap::new() }
    }

    /// Checks if mode is active.
    pub fn is_active(&self) -> (result: bool)
        ensures
            result == self@.active,
    {
        self.active
    }

    /// Returns name of the mode.
    pub fn get_name(&self) -> (result: String)
        ensures
            result@ == self@.name,
    {
        self.name.clone()
    }

    /// Sets mode active or inactive.
    pub fn make_active(&mut self, active: bool)
        ensures
            final(self)@ == old(self)@.with_active(active),
    {
        self.active = active;
    }

    /// Add new binding.
    pub fn add_binding(&mut self, binding: Binding, executor: Executor)
        ensures
            final(self)@ == old(self)@.with_binding(binding.spec_key(), executor),
    {
        let key = binding.key();
        self.bindings.insert(key, executor);
    }

    /// Returns executor for given binding.
    pub fn get_executor(&self, binding: &Binding) -> (result: Option<&Executor>)
        ensures
            match result {
                Some(executor) => self@.bindings.contains_key(binding.spec_key())
                    && *executor == self@.bindings[binding.spec_key()],
                None => !self@.bindings.contains_key(binding.spec_key()),
            },
    {
        let key = binding.key();
        self.bindings.get(&key)
    }
}

impl Executor {
    /// Returns a handler with the same effect.
    pub fn duplicate(&self) -> (result: Executor)
        ensures
            forall|s: ContextState| #[trigger] result.effect(s) == self.effect(s),
    {
        match self {
            Executor::Nop => Executor::Nop,
            Executor::CleanCommand => Executor::CleanCommand,
            Executor::Quit => Executor::Quit,
            Executor::PutFocus => Executor::PutFocus,
            Executor::PutSwap => Executor::PutSwap,
            Executor::PutJump => Executor::PutJump,
            Executor::PutDive => Executor::PutDive,
            Executor::PutMove => Executor::PutMove,
            Executor::PutNorth => Executor::PutNorth,
            Executor::PutEast => Executor::PutEast,
            Executor::PutSouth => Executor::PutSouth,
            Executor::PutWest => Executor::PutWest,
            Executor::PutForward => Executor::PutForward,
            Executor::PutBackward => Executor::PutBackward,
            Executor::PutBegin => Executor::PutBegin,
            Executor::PutEnd => Executor::PutEnd,
            Executor::PutMagnitude => Executor::PutMagnitude,
            Executor::Horizontalize => Executor::Horizontalize,
            Executor::Verticalize => Executor::Verticalize,
            Executor::Stackize => Executor::Stackize,
            Executor::ToggleAnchorization => Executor::ToggleAnchorization,
            Executor::CicleHistoryForward => Executor::CicleHistoryForward,
            Executor::CicleHistoryBackward => Executor::CicleHistoryBackward,
            Executor::FocusRight => Executor::FocusRight,
            Executor::FocusDown => Executor::FocusDown,
            Executor::FocusLeft => Executor::FocusLeft,
            Executor::FocusUp => Executor::FocusUp,
            Executor::JumpRight => Executor::JumpRight,
            Executor::JumpDown => Executor::JumpDown,
            Executor::JumpLeft => Executor::JumpLeft,
            Executor::JumpUp => Executor::JumpUp,
            Executor::Exalt => Executor::Exalt,
            Executor::Ramify => Executor::Ramify,
            Executor::DiveRight => Executor::DiveRight,
            Executor::DiveDown => Executor::DiveDown,
            Executor::DiveLeft => Executor::DiveLeft,
            Executor::DiveUp => Executor::DiveUp,
            Executor::JumpToWorkspace => Executor::JumpToWorkspace,
            Executor::DiveToWorkspace => Executor::DiveToWorkspace,
            Executor::FocusWorkspace => Executor::FocusWorkspace,
            Executor::SwapModeNormalToInsert => Executor::SwapModeNormalToInsert,
            Executor::SwapModeInsertToNormal => Executor::SwapModeInsertToNormal,
            Executor::SpawnProcess(command) => Executor::SpawnProcess(command.clone()),
        }
    }
}

/// Whether no two modes share a name.
pub open spec fn unique_names(modes: Seq<ModeView>) -> bool {
    forall|i: int, j: int|
        0 <= i < modes.len() && 0 <= j < modes.len() && i != j ==> modes[i].name != modes[j].name
}

/// The handler bound to the given number in the first active mode that has one.
pub open spec fn lookup(modes: Seq<ModeView>, key: u32) -> Option<Executor>
    decreases modes.len(),
{
    if modes.len() == 0 {
        None
    } else if modes[0].active && modes[0].bindings.contains_key(key) {
        Some(modes[0].bindings[key])
    } else {
        lookup(modes.drop_first(), key)
    }
}

/// A binding is handled by the first active mode that binds it: the handler found is that of the
/// mode at `i` when it is active, binds the key, and no active mode before it binds the key.
pub proof fn lemma_lookup_first_active(modes: Seq<ModeView>, key: u32, i: int)
    requires
        0 <= i < modes.len(),
        modes[i].active,
        modes[i].bindings.contains_key(key),
        forall|k: int|
            0 <= k < i ==> !(modes[k].active && #[trigger] modes[k].bindings.contains_key(key)),
    ensures
        lookup(modes, key) == Some(modes[i].bindings[key]),
    decreases i,
{
    if i > 0 {
        let rest = modes.drop_first();
        assert forall|k: int|
            0 <= k < i - 1 implies !(rest[k].active && #[trigger] rest[k].bindings.contains_key(
            key,
        )) by {
            assert(rest[k] == modes[k + 1]);
        }
        assert(!(modes[0].active && modes[0].bindings.contains_key(key)));
        lemma_lookup_first_active(rest, key, i - 1);
    }
}

/// No handler is found for a binding that no active mode binds.
pub proof fn lemma_lookup_none(modes: Seq<ModeView>, key: u32)
    requires
        forall|k: int|
            0 <= k < modes.len() ==> !(modes[k].active && #[trigger] modes[k].bindings.contains_key(
                key,
            )),
    ensures
        lookup(modes, key) is None,
    decreases modes.len(),
{
    if modes.len() > 0 {
        let rest = modes.drop_first();
        assert forall|k: int|
            0 <= k < rest.len() implies !(rest[k].active && #[trigger] rest[k].bindings.contains_key(
            key,
        )) by {
            assert(rest[k] == modes[k + 1]);
        }
        assert(!(modes[0].active && modes[0].bindings.contains_key(key)));
        lemma_lookup_none(rest, key);
    }
}

/// The modes after binding `executor` to `key` in the first mode named `name`; a mode of that
/// name is created, inactive, when there is none.
pub open spec fn bind_in(modes: Seq<ModeView>, name: Seq<char>, key: u32, executor: Executor) -> Seq<
    ModeView,
> {
    let i = first_named(modes, name);
    if i < modes.len() {
        modes.update(i, modes[i].with_binding(key, executor))
    } else {
        modes.push(
            ModeView { name: name, active: false, bindings: Map::<u32, Executor>::empty() }.with_binding(
                key,
                executor,
            ),
        )
    }
}

/// The modes after binding each entry, in order, in the first mode named `name`.
pub open spec fn bind_all(
    modes: Seq<ModeView>,
    name: Seq<char>,
    entries: Seq<(KeyCode, ModifierType, Executor)>,
) -> Seq<ModeView>
    decreases entries.len(),
{
    if entries.len() == 0 {
        modes
    } else {
        let last = entries.last();
        bind_in(bind_all(modes, name, entries.drop_last()), name, binding_key(last.0, last.1), last.2)
    }
}

/// The modes of a manager built from the given configuration: the common, insert and normal
/// bindings are added in this order, then the common and insert modes are activated.
pub open spec fn configured_modes(config: KeybindingsConfig) -> Seq<ModeView> {
    let bound = bind_all(
        bind_all(
            bind_all(Seq::<ModeView>::empty(), mode_name::COMMON@, entries_view(config.common@)),
            mode_name::INSERT@,
            entries_view(config.insert@),
        ),
        mode_name::NORMAL@,
        entries_view(config.normal@),
    );
    activate_in(activate_in(bound, mode_name::COMMON@, true), mode_name::INSERT@, true)
}

/// This structure manages key bindings and modes.
///
/// Main task is to identify key sequences as bindings and execute assigned function. Commands
/// built by the handlers and processes they request are kept until the application takes them.
pub struct InputManager {
    modes: Vec<Mode>,
    command: Command,
    code: KeyCode,
    executed: Vec<Command>,
    spawned: Vec<Vec<String>>,
}

/// Returns a command equal in value to `command`.
fn copy_command(command: &Command) -> (result: Command)
    ensures
        result@ == command@,
{
    Command {
        action: command.action,
        direction: command.direction,
        magnitude: command.magnitude,
        string: command.string.clone(),
    }
}

impl InputManager {
    /// Modes of the manager.
    pub closed spec fn spec_modes(&self) -> Seq<ModeView> {
        self.modes@.map_values(|m: Mode| m@)
    }

    /// Constructs a manager with no modes and an empty command.
    pub fn empty() -> (result: Self)
        ensures
            result.spec_state().modes == Seq::<ModeView>::empty(),
            result.spec_state().command == CommandView::empty(),
            result.spec_state().executed == Seq::<CommandView>::empty(),
            result.spec_state().spawned == Seq::<Seq<Seq<char>>>::empty(),
            result.spec_state().code == 0,
    {
        let result = InputManager {
            modes: Vec::new(),
            command: Command::default(),
            code: 0,
            executed: Vec::new(),
            spawned: Vec::new(),
        };
        assert(result.spec_modes() =~= Seq::<ModeView>::empty());
        assert(result.executed@.map_values(|c: Command| c@) =~= Seq::<CommandView>::empty());
        assert(result.spawned@.map_values(|v: Vec<String>| command_line_view(v@)) =~= Seq::<
            Seq<Seq<char>>,
        >::empty());
        result
    }

    /// `InputManager` constructor: creates the modes with the configured bindings and activates
    /// the common and insert modes.
    pub fn new(config: KeybindingsConfig) -> (result: Self)
        ensures
            result.spec_state() == (ContextState {
                command: CommandView::empty(),
                executed: Seq::<CommandView>::empty(),
                modes: configured_modes(config),
                code: 0,
                spawned: Seq::<Seq<Seq<char>>>::empty(),
            }),
    {
        let mut inner = InputManager::empty();
        inner.add_bindings(mode_name::COMMON, config.common);
        inner.add_bindings(mode_name::INSERT, config.insert);
        inner.add_bindings(mode_name::NORMAL, config.normal);
        inner.make_mode_active(String::from_str(mode_name::COMMON), true);
        inner.make_mode_active(String::from_str(mode_name::INSERT), true);
        inner
    }

    /// Adds the given entries, in order, to the mode named `name`.
    fn add_bindings(&mut self, name: &str, entries: Vec<BindingEntry>)
        ensures
            final(self).spec_state() == (ContextState {
                modes: bind_all(old(self).spec_state().modes, name@, entries_view(entries@)),
                ..old(self).spec_state()
            }),
    {
        let ghost all = entries_view(entries@);
        let count = entries.len();
        let mut rest = entries;
        let mut i: usize = 0;
        while rest.len() > 0
            invariant
                i + rest.len() == all.len(),
                all.len() == count,
                entries_view(rest@) == all.skip(i as int),
                self.spec_state() == (ContextState {
                    modes: bind_all(old(self).spec_state().modes, name@, all.take(i as int)),
                    ..old(self).spec_state()
                }),
            decreases rest.len(),
        {
            let ghost before = rest@;
            let entry = rest.remove(0);
            proof {
                assert(entries_view(before)[0] == entry_view(entry));
                assert(all[i as int] == entry_view(entry));
                assert forall|k: int| 0 <= k < rest@.len() implies entries_view(rest@)[k] == all.skip(
                    i + 1,
                )[k] by {
                    assert(rest@[k] == before[k + 1]);
                    assert(entries_view(before)[k + 1] == all.skip(i as int)[k + 1]);
                }
                assert(entries_view(rest@) =~= all.skip(i + 1));
                assert(all.take(i + 1).drop_last() =~= all.take(i as int));
                assert(all.take(i + 1).last() == all[i as int]);
            }
            self.add_binding(String::from_str(name), entry.binding, entry.executor);
            i = i + 1;
        }
        assert(all.take(i as int) =~= all);
    }

    /// Index of the first active mode that binds `key`, if any.
    fn find_mode(&self, binding: &Binding) -> (result: Option<usize>)
        ensures
            match result {
                Some(i) => i < self.spec_modes().len() && self.spec_modes()[i as int].active
                    && self.spec_modes()[i as int].bindings.contains_key(binding.spec_key())
                    && lookup(self.spec_modes(), binding.spec_key()) == Some(
                    self.spec_modes()[i as int].bindings[binding.spec_key()],
                ),
                None => lookup(self.spec_modes(), binding.spec_key()) is None,
            },
    {
        let ghost modes = self.spec_modes();
        let ghost key = binding.spec_key();
        let mut i: usize = 0;
        assert(modes.subrange(0, modes.len() as int) =~= modes);
        while i < self.modes.len()
            invariant
                i <= self.modes.len(),
                modes == self.spec_modes(),
                key == binding.spec_key(),
                lookup(modes, key) == lookup(modes.subrange(i as int, modes.len() as int), key),
            decreases self.modes.len() - i,
        {
            let ghost rest = modes.subrange(i as int, modes.len() as int);
            assert(rest[0] == modes[i as int]);
            assert(rest.drop_first() =~= modes.subrange(i + 1, modes.len() as int));
            assert(self.spec_modes()[i as int] == self.modes@[i as int]@);
            if self.modes[i].is_active() {
                let found = self.modes[i].get_executor(binding);
                if found.is_some() {
                    assert(self.modes@[i as int]@.bindings.contains_key(binding.spec_key()));
                    assert(rest.len() > 0);
                    assert(rest[0].active);
                    assert(rest[0].bindings.contains_key(key));
                    assert(lookup(rest, key) == Some(rest[0].bindings[key]));
                    return Some(i);
                }
            }
            assert(lookup(rest, key) == lookup(rest.drop_first(), key));
            i = i + 1;
        }
        None
    }

    /// Helper method for finding executor for given binding in active modes: the handler of the
    /// first active mode that binds it.
    fn find_executor(&self, binding: &Binding) -> (result: Option<Executor>)
        ensures
            match lookup(self.spec_modes(), binding.spec_key()) {
                Some(found) => result is Some && forall|s: ContextState|
                    #[trigger] result->0.effect(s) == found.effect(s),
                None => result is None,
            },
    {
        match self.find_mode(binding) {
            Some(i) => Some(self.modes[i].get_executor(binding).unwrap().duplicate()),
            None => None,
        }
    }

    /// Tries for find executor matching to given key and state of modifiers and execute it if
    /// found.
    pub fn catch_key(&mut self, code: KeyCode, value: KeyValue, modifiers: ModifierType) -> (result:
        KeyCatchResult)
        ensures
            ({
                let before = old(self).spec_state();
                let key = binding_key(code, modifiers);
                if value == KeyState::Pressed.spec_value() && lookup(before.modes, key) is Some {
                    &&& result == KeyCatchResult::Caught
                    &&& final(self).spec_state() == lookup(before.modes, key)->0.effect(
                        ContextState {
                            command: before.command,
                            executed: before.executed,
                            modes: before.modes,
                            code: code,
                            spawned: before.spawned,
                        },
                    )
                } else {
                    &&& result == KeyCatchResult::Passed
                    &&& final(self).spec_state() == before
                }
            }),
    {
        if value == KeyState::Pressed.value() {
            if let Some(executor) = self.find_executor(&Binding::create(code, modifiers)) {
                self.code = code;
                executor.execute(self);
                KeyCatchResult::Caught
            } else {
                KeyCatchResult::Passed
            }
        } else {
            KeyCatchResult::Passed
        }
    }

    /// Activates or deactivates mode identified by name.
    pub fn make_mode_active(&mut self, mode_name: String, active: bool)
        ensures
            final(self).spec_state() == old(self).spec_state().activating(mode_name@, active),
    {
        self.activate(mode_name.as_str(), active);
    }

    /// Sets the activity of the first mode named `name`, if there is one.
    fn activate(&mut self, name: &str, active: bool)
        ensures
            final(self).spec_state() == old(self).spec_state().activating(name@, active),
    {
        let ghost modes = self.spec_modes();
        let mut i: usize = 0;
        while i < self.modes.len()
            invariant
                i <= self.modes.len(),
                self.spec_modes() == modes,
                modes == old(self).spec_modes(),
                self.command == old(self).command,
                self.code == old(self).code,
                self.executed == old(self).executed,
                self.spawned == old(self).spawned,
                forall|k: int| 0 <= k < i ==> modes[k].name != name@,
            decreases self.modes.len() - i,
        {
            let is_named = str_eq(self.modes[i].name.as_str(), name);
            if is_named {
                let ghost before = self.modes@;
                let mut mode = self.modes.remove(i);
                mode.make_active(active);
                self.modes.insert(i, mode);
                proof {
                    assert(before[i as int]@ == modes[i as int]);
                    assert(self.modes@[i as int]@ == modes[i as int].with_active(active));
                    assert(is_first_named(modes, name@, i as int));
                    lemma_first_named_unique(modes, name@, i as int);
                    let after = self.spec_modes();
                    assert(after =~= activate_in(modes, name@, active)) by {
                        assert forall|k: int| 0 <= k < modes.len() && k != i implies after[k]
                            == modes[k] by {
                            assert(self.modes@[k] == before[k]);
                        }
                    }
                }
                return;
            }
            i = i + 1;
        }
        proof {
            lemma_first_named_absent(modes, name@);
        }
        assert(activate_in(modes, name@, active) =~= modes);
    }

    /// Adds given binding to mode identified by name.
    pub fn add_binding(&mut self, mode_name: String, binding: Binding, executor: Executor)
        ensures
            final(self).spec_state() == (ContextState {
                modes: bind_in(old(self).spec_state().modes, mode_name@, binding.spec_key(), executor),
                ..old(self).spec_state()
            }),
    {
        let ghost modes = self.spec_modes();
        let ghost key = binding.spec_key();
        let mut i: usize = 0;
        while i < self.modes.len()
            invariant
                i <= self.modes.len(),
                self.spec_modes() == modes,
                modes == old(self).spec_modes(),
                key == binding.spec_key(),
                self.command == old(self).command,
                self.code == old(self).code,
                self.executed == old(self).executed,
                self.spawned == old(self).spawned,
                forall|k: int| 0 <= k < i ==> modes[k].name != mode_name@,
            decreases self.modes.len() - i,
        {
            let is_named = str_eq(self.modes[i].name.as_str(), mode_name.as_str());
            if is_named {
                let ghost before = self.modes@;
                let mut mode = self.modes.remove(i);
                mode.add_binding(binding, executor);
                self.modes.insert(i, mode);
                proof {
                    assert(before[i as int]@ == modes[i as int]);
                    assert(self.modes@[i as int]@ == modes[i as int].with_binding(key, executor));
                    assert(is_first_named(modes, mode_name@, i as int));
                    lemma_first_named_unique(modes, mode_name@, i as int);
                    let after = self.spec_modes();
                    assert(after =~= bind_in(modes, mode_name@, key, executor)) by {
                        assert forall|k: int| 0 <= k < modes.len() && k != i implies after[k]
                            == modes[k] by {
                            assert(self.modes@[k] == before[k]);
                        }
                    }
                }
                return;
            }
            i = i + 1;
        }
        proof {
            lemma_first_named_absent(modes, mode_name@);
        }
        let mut mode = Mode::new(false, mode_name);
        mode.add_binding(binding, executor);
        self.modes.push(mode);
        assert(self.spec_modes() =~= bind_in(modes, mode_name@, key, executor));
    }

    /// Removes and returns the commands built by the handlers, oldest first.
    pub fn take_commands(&mut self) -> (result: Vec<Command>)
        ensures
            result@.map_values(|c: Command| c@) == old(self).spec_state().executed,
            final(self).spec_state() == (ContextState {
                executed: Seq::<CommandView>::empty(),
                ..old(self).spec_state()
            }),
    {
        let mut result = Vec::new();
        std::mem::swap(&mut result, &mut self.executed);
        assert(self.executed@.map_values(|c: Command| c@) =~= Seq::<CommandView>::empty());
        result
    }

    /// Removes and returns the command lines whose run the handlers requested, oldest first.
    pub fn take_spawn_requests(&mut self) -> (result: Vec<Vec<String>>)
        ensures
            result@.map_values(|v: Vec<String>| command_line_view(v@)) == old(
                self,
            ).spec_state().spawned,
            final(self).spec_state() == (ContextState {
                spawned: Seq::<Seq<Seq<char>>>::empty(),
                ..old(self).spec_state()
            }),
    {
        let mut result = Vec::new();
        std::mem::swap(&mut result, &mut self.spawned);
        assert(self.spawned@.map_values(|v: Vec<String>| command_line_view(v@)) =~= Seq::<
            Seq<Seq<char>>,
        >::empty());
        result
    }
}

impl InputContext for InputManager {
    closed spec fn spec_state(&self) -> ContextState {
        ContextState {
            command: self.command@,
            executed: self.executed@.map_values(|c: Command| c@),
            modes: self.spec_modes(),
            code: self.code,
            spawned: self.spawned@.map_values(|v: Vec<String>| command_line_view(v@)),
        }
    }

    fn set_action(&mut self, action: Action) {
        self.command.action = action;
    }

    fn set_direction(&mut self, direction: Direction) {
        self.command.direction = direction;
    }

    fn set_magnitude(&mut self, magnitude: i32) {
        self.command.magnitude = magnitude;
    }

    fn set_string(&mut self, string: String) {
        self.command.string = string;
    }

    fn get_action(&mut self) -> (result: Action) {
        self.command.action
    }

    fn get_direction(&mut self) -> (result: Direction) {
        self.command.direction
    }

    fn get_magnitude(&mut self) -> (result: i32) {
        self.command.magnitude
    }

    fn get_string(&mut self) -> (result: String) {
        self.command.string.clone()
    }

    fn execute_command(&mut self) {
        let command = copy_command(&self.command);
        self.executed.push(command);
        assert(self.executed@.map_values(|c: Command| c@) =~= old(self).executed@.map_values(
            |c: Command| c@,
        ).push(self.command@));
    }

    fn clean_command(&mut self) {
        self.command = Command::default();
    }

    fn activate_mode(&mut self, mode_name: &'static str, active: bool) {
        self.activate(mode_name, active);
    }

    fn spawn_process(&mut self, command: Vec<String>) {
        self.spawned.push(command);
        assert(self.spawned@.map_values(|v: Vec<String>| command_line_view(v@)) =~= old(
            self,
        ).spawned@.map_values(|v: Vec<String>| command_line_view(v@)).push(
            command_line_view(command@),
        ));
    }

    fn get_code(&self) -> (result: KeyCode) {
        self.code
    }

    fn get_code_as_number(&self) -> (result: Option<i32>) {
        let code = self.code as i32;
        if keys::KEY_1 <= code && code <= keys::KEY_9 {
            Some(code - keys::KEY_1 + 1)
        } else if code == keys::KEY_10 {
            Some(0)
        } else {
            None
        }
    }
}

} // verus!
