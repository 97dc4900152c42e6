use perceptia::binding_functions::Executor;
use perceptia::config::{BindingEntry, KeybindingsConfig};
use perceptia::defs::{Command, KeyCode};
use perceptia::enums::{Action, Direction, KeyState};
use perceptia::input_manager::{Binding, InputManager, KeyCatchResult, Mode};
use perceptia::keys;
use perceptia::modifier;

fn press(manager: &mut InputManager, code: i32, modifiers: modifier::ModifierType) -> KeyCatchResult {
    manager.catch_key(code as KeyCode, KeyState::Pressed.value(), modifiers)
}

fn only_command(manager: &mut InputManager) -> Command {
    let mut commands = manager.take_commands();
    assert_eq!(commands.len(), 1);
    commands.remove(0)
}

#[test]
fn default_bindings_focus_in_insert_mode() {
    let mut manager = InputManager::new(KeybindingsConfig::default());
    assert_eq!(press(&mut manager, keys::KEY_RIGHT, modifier::LMTA), KeyCatchResult::Caught);
    let command = only_command(&mut manager);
    assert_eq!(command.action, Action::Focus);
    assert_eq!(command.direction, Direction::East);
    assert_eq!(command.magnitude, 1);
    assert!(manager.take_commands().is_empty());
}

#[test]
fn released_and_unbound_keys_pass() {
    let mut manager = InputManager::new(KeybindingsConfig::default());
    let released = manager.catch_key(keys::KEY_RIGHT as KeyCode, KeyState::Released.value(), modifier::LMTA);
    assert_eq!(released, KeyCatchResult::Passed);
    assert_eq!(press(&mut manager, keys::KEY_A, modifier::NONE), KeyCatchResult::Passed);
    // Bindings of the normal mode are inactive at start.
    assert_eq!(press(&mut manager, keys::KEY_H, modifier::NONE), KeyCatchResult::Passed);
    assert!(manager.take_commands().is_empty());
}

#[test]
fn normal_mode_builds_commands_from_several_keys() {
    let mut manager = InputManager::new(KeybindingsConfig::default());
    assert_eq!(press(&mut manager, keys::KEY_ESC, modifier::LMTA), KeyCatchResult::Caught);
    assert_eq!(press(&mut manager, keys::KEY_RIGHT, modifier::LMTA), KeyCatchResult::Passed);

    assert_eq!(press(&mut manager, keys::KEY_5, modifier::NONE), KeyCatchResult::Caught);
    assert_eq!(press(&mut manager, keys::KEY_F, modifier::NONE), KeyCatchResult::Caught);
    assert!(manager.take_commands().is_empty());
    // Putting an action and a direction sets them in the command but does not execute it.
    assert_eq!(press(&mut manager, keys::KEY_UP, modifier::NONE), KeyCatchResult::Caught);
    assert!(manager.take_commands().is_empty());

    assert_eq!(press(&mut manager, keys::KEY_H, modifier::NONE), KeyCatchResult::Caught);
    let command = only_command(&mut manager);
    assert_eq!(command.action, Action::Configure);
    assert_eq!(command.direction, Direction::East);

    assert_eq!(press(&mut manager, keys::KEY_I, modifier::NONE), KeyCatchResult::Caught);
    assert_eq!(press(&mut manager, keys::KEY_H, modifier::NONE), KeyCatchResult::Passed);
    assert_eq!(press(&mut manager, keys::KEY_LEFT, modifier::LMTA), KeyCatchResult::Caught);
}

#[test]
fn workspace_bindings_name_the_workspace_by_key() {
    let mut manager = InputManager::new(KeybindingsConfig::default());
    assert_eq!(press(&mut manager, keys::KEY_3, modifier::LMTA), KeyCatchResult::Caught);
    let command = only_command(&mut manager);
    assert_eq!(command.action, Action::Focus);
    assert_eq!(command.direction, Direction::Workspace);
    assert_eq!(command.magnitude, 1);
    assert_eq!(command.string, "3");

    assert_eq!(press(&mut manager, keys::KEY_10, modifier::LMTA), KeyCatchResult::Caught);
    assert_eq!(only_command(&mut manager).string, "0");
}

#[test]
fn bindings_can_request_processes() {
    let config = KeybindingsConfig {
        common: vec![],
        insert: vec![BindingEntry::new(
            keys::KEY_T,
            modifier::LMTA,
            Executor::SpawnProcess(vec!["weston-terminal".to_string(), "--fullscreen".to_string()]),
        )],
        normal: vec![],
    };
    let mut manager = InputManager::new(config);
    assert_eq!(press(&mut manager, keys::KEY_T, modifier::LMTA), KeyCatchResult::Caught);
    let requests = manager.take_spawn_requests();
    assert_eq!(requests, vec![vec!["weston-terminal".to_string(), "--fullscreen".to_string()]]);
    assert!(manager.take_spawn_requests().is_empty());
    assert!(manager.take_commands().is_empty());
}

#[test]
fn added_bindings_work_in_active_modes_only() {
    let mut manager = InputManager::empty();
    manager.add_binding("custom".to_string(), Binding::new(keys::KEY_A, modifier::NONE), Executor::Exalt);
    assert_eq!(press(&mut manager, keys::KEY_A, modifier::NONE), KeyCatchResult::Passed);
    manager.make_mode_active("custom".to_string(), true);
    assert_eq!(press(&mut manager, keys::KEY_A, modifier::NONE), KeyCatchResult::Caught);
    let command = only_command(&mut manager);
    assert_eq!(command.action, Action::Jump);
    assert_eq!(command.direction, Direction::Begin);
    manager.make_mode_active("custom".to_string(), false);
    assert_eq!(press(&mut manager, keys::KEY_A, modifier::NONE), KeyCatchResult::Passed);
}

#[test]
fn modes_keep_bindings_by_key_and_modifiers() {
    let mut mode = Mode::new(false, "m".to_string());
    assert!(!mode.is_active());
    assert_eq!(mode.get_name(), "m");
    mode.make_active(true);
    assert!(mode.is_active());
    let binding = Binding::new(keys::KEY_B, modifier::LCTL);
    mode.add_binding(binding, Executor::Ramify);
    assert_eq!(mode.get_executor(&binding), Some(&Executor::Ramify));
    assert_eq!(mode.get_executor(&Binding::new(keys::KEY_B, modifier::RCTL)), None);
    mode.add_binding(binding, Executor::Exalt);
    assert_eq!(mode.get_executor(&binding), Some(&Executor::Exalt));
    assert_eq!(Binding::new(keys::KEY_B, modifier::LCTL), Binding::create(keys::KEY_B as KeyCode, modifier::LCTL));
}

#[test]
fn a_second_activation_overrides_the_first() {
    let mut manager = InputManager::new(KeybindingsConfig::default());
    manager.make_mode_active("insert".to_string(), false);
    manager.make_mode_active("insert".to_string(), true);
    assert_eq!(press(&mut manager, keys::KEY_RIGHT, modifier::LMTA), KeyCatchResult::Caught);
    manager.make_mode_active("insert".to_string(), true);
    manager.make_mode_active("insert".to_string(), false);
    assert_eq!(press(&mut manager, keys::KEY_RIGHT, modifier::LMTA), KeyCatchResult::Passed);
    manager.make_mode_active("no such mode".to_string(), true);
    assert_eq!(press(&mut manager, keys::KEY_RIGHT, modifier::LMTA), KeyCatchResult::Passed);
}

#[test]
fn the_first_active_mode_binding_a_key_handles_it() {
    let mut manager = InputManager::empty();
    let binding = Binding::new(keys::KEY_A, modifier::NONE);
    manager.add_binding("first".to_string(), binding, Executor::Exalt);
    manager.add_binding("second".to_string(), binding, Executor::Ramify);
    manager.make_mode_active("second".to_string(), true);
    assert_eq!(press(&mut manager, keys::KEY_A, modifier::NONE), KeyCatchResult::Caught);
    assert_eq!(only_command(&mut manager).direction, Direction::End);
    manager.make_mode_active("first".to_string(), true);
    assert_eq!(press(&mut manager, keys::KEY_A, modifier::NONE), KeyCatchResult::Caught);
    assert_eq!(only_command(&mut manager).direction, Direction::Begin);
}
