//! Configuration structures.

use vstd::prelude::*;

use crate::binding_functions::{ContextState, Executor};
use crate::enums::{Action, Direction};
use crate::defs::KeyCode;
use crate::input_manager::Binding;
use crate::keys;
use crate::modifier;
use crate::modifier::ModifierType;
use crate::text::{str_eq, to_ascii_lowercase, ascii_lowercase};
use crate::yaml::{
    as_i64, as_str, as_vec, index, parse_yaml, yaml_documents, lemma_leading_end, leading, node_of, string_text, yaml_i64,
    yaml_index, yaml_items, yaml_path, yaml_str, Yaml,
};

verus! {

/// Helper structure used to keep configuration entry for one key binding.
#[derive(Clone, Debug)]
pub struct BindingEntry {
    pub binding: Binding,
    pub executor: Executor,
}

/// Key code, modifiers and handler of a binding entry.
pub open spec fn entry_view(entry: BindingEntry) -> (KeyCode, ModifierType, Executor) {
    (entry.binding.spec_code(), entry.binding.spec_modifiers(), entry.executor)
}

/// Key codes, modifiers and handlers of a list of binding entries.
pub open spec fn entries_view(entries: Seq<BindingEntry>) -> Seq<(KeyCode, ModifierType, Executor)> {
    entries.map_values(|e: BindingEntry| entry_view(e))
}

impl BindingEntry {
    /// `BindingEntry` constructor.
    pub fn new(code: i32, modifiers: ModifierType, executor: Executor) -> (result: Self)
        ensures
            result.binding.spec_code() == code as KeyCode,
            result.binding.spec_modifiers() == modifiers,
            result.executor == executor,
    {
        BindingEntry { binding: Binding::new(code, modifiers), executor: executor }
    }
}

/// Configuration of aesthetics.
#[derive(Clone, Debug)]
pub struct AestheticsConfig {
    /// Path to background image.
    pub background_path: Option<String>,
}

impl Default for AestheticsConfig {
    fn default() -> (result: Self)
        ensures
            result.background_path is None,
    {
        AestheticsConfig { background_path: None }
    }
}

/// Configuration of compositor.
#[derive(Clone, Debug)]
pub struct CompositorConfig {
    /// Distance in pixels by which frames are moved by `move` command.
    pub move_step: u32,
}

impl Default for CompositorConfig {
    fn default() -> (result: Self)
        ensures
            result.move_step == 10,
    {
        CompositorConfig { move_step: 10 }
    }
}

/// Configuration of strategist.
#[derive(Clone, Debug)]
pub struct StrategistConfig {
    /// Strategy used to decide where and how new surface should be placed.
    pub choose_target: String,

    /// Strategy used to decide position and size of floating surface (new or deanchorized).
    pub choose_floating: String,
}

impl Default for StrategistConfig {
    fn default() -> (result: Self)
        ensures
            result.choose_target@ == "always_floating"@,
            result.choose_floating@ == "random"@,
    {
        StrategistConfig {
            choose_target: String::from_str("always_floating"),
            choose_floating: String::from_str("random"),
        }
    }
}

/// Configuration of exhibitor.
#[derive(Clone, Debug)]
pub struct ExhibitorConfig {
    /// Configuration of compositor.
    pub compositor: CompositorConfig,

    /// Configuration of strategist.
    pub strategist: StrategistConfig,
}

impl Default for ExhibitorConfig {
    fn default() -> (result: Self)
        ensures
            result.compositor.move_step == 10,
            result.strategist.choose_target@ == "always_floating"@,
            result.strategist.choose_floating@ == "random"@,
    {
        ExhibitorConfig {
            compositor: CompositorConfig::default(),
            strategist: StrategistConfig::default(),
        }
    }
}

/// Configuration of keyboard.
#[derive(Clone, Debug)]
pub struct KeyboardConfig {
    pub layout: String,
    pub variant: String,
}

impl Default for KeyboardConfig {
    fn default() -> (result: Self)
        ensures
            result.layout@ == "us"@,
            result.variant@ == ""@,
    {
        KeyboardConfig { layout: String::from_str("us"), variant: String::from_str("") }
    }
}

/// Configuration of key bindings.
#[derive(Clone, Debug)]
pub struct KeybindingsConfig {
    /// Bindings for `common` mode.
    pub common: Vec<BindingEntry>,

    /// Bindings for `insert` mode.
    pub insert: Vec<BindingEntry>,

    /// Bindings for `normal` mode.
    pub normal: Vec<BindingEntry>,
}

/// Default bindings of the `common` mode.
pub open spec fn default_common_bindings() -> Seq<(KeyCode, ModifierType, Executor)> {
    seq![
        ((keys::KEY_ESC) as KeyCode, modifier::LCTL | modifier::LMTA, Executor::Quit),
    ]
}

/// Default bindings of the `normal` mode.
pub open spec fn default_normal_bindings() -> Seq<(KeyCode, ModifierType, Executor)> {
    seq![
        ((keys::KEY_ESC) as KeyCode, modifier::NONE, Executor::CleanCommand),
        ((keys::KEY_H) as KeyCode, modifier::NONE, Executor::Horizontalize),
        ((keys::KEY_V) as KeyCode, modifier::NONE, Executor::Verticalize),
        ((keys::KEY_S) as KeyCode, modifier::NONE, Executor::Stackize),
        ((keys::KEY_I) as KeyCode, modifier::NONE, Executor::SwapModeNormalToInsert),
        ((keys::KEY_SPACE) as KeyCode, modifier::NONE, Executor::SwapModeNormalToInsert),
        ((keys::KEY_F) as KeyCode, modifier::NONE, Executor::PutFocus),
        ((keys::KEY_F) as KeyCode, modifier::LSHF, Executor::PutSwap),
        ((keys::KEY_J) as KeyCode, modifier::NONE, Executor::PutJump),
        ((keys::KEY_D) as KeyCode, modifier::NONE, Executor::PutDive),
        ((keys::KEY_M) as KeyCode, modifier::NONE, Executor::PutMove),
        ((keys::KEY_RIGHT) as KeyCode, modifier::NONE, Executor::PutEast),
        ((keys::KEY_LEFT) as KeyCode, modifier::NONE, Executor::PutWest),
        ((keys::KEY_UP) as KeyCode, modifier::NONE, Executor::PutNorth),
        ((keys::KEY_DOWN) as KeyCode, modifier::NONE, Executor::PutSouth),
        ((keys::KEY_PAGEUP) as KeyCode, modifier::NONE, Executor::PutForward),
        ((keys::KEY_PAGEDOWN) as KeyCode, modifier::NONE, Executor::PutBackward),
        ((keys::KEY_HOME) as KeyCode, modifier::NONE, Executor::PutBegin),
        ((keys::KEY_END) as KeyCode, modifier::NONE, Executor::PutEnd),
        ((keys::KEY_1) as KeyCode, modifier::NONE, Executor::PutMagnitude),
        ((keys::KEY_2) as KeyCode, modifier::NONE, Executor::PutMagnitude),
        ((keys::KEY_3) as KeyCode, modifier::NONE, Executor::PutMagnitude),
        ((keys::KEY_4) as KeyCode, modifier::NONE, Executor::PutMagnitude),
        ((keys::KEY_5) as KeyCode, modifier::NONE, Executor::PutMagnitude),
        ((keys::KEY_6) as KeyCode, modifier::NONE, Executor::PutMagnitude),
        ((keys::KEY_7) as KeyCode, modifier::NONE, Executor::PutMagnitude),
        ((keys::KEY_8) as KeyCode, modifier::NONE, Executor::PutMagnitude),
        ((keys::KEY_9) as KeyCode, modifier::NONE, Executor::PutMagnitude),
        ((keys::KEY_10) as KeyCode, modifier::NONE, Executor::PutMagnitude),
    ]
}

/// Default bindings of the `insert` mode.
pub open spec fn default_insert_bindings() -> Seq<(KeyCode, ModifierType, Executor)> {
    seq![
        ((keys::KEY_ESC) as KeyCode, modifier::LMTA, Executor::SwapModeInsertToNormal),
        ((keys::KEY_RIGHT) as KeyCode, modifier::LMTA, Executor::FocusRight),
        ((keys::KEY_DOWN) as KeyCode, modifier::LMTA, Executor::FocusDown),
        ((keys::KEY_LEFT) as KeyCode, modifier::LMTA, Executor::FocusLeft),
        ((keys::KEY_UP) as KeyCode, modifier::LMTA, Executor::FocusUp),
        ((keys::KEY_TAB) as KeyCode, modifier::LMTA, Executor::CicleHistoryForward),
        ((keys::KEY_TAB) as KeyCode, modifier::LMTA | modifier::LSHF, Executor::CicleHistoryBackward),
        ((keys::KEY_1) as KeyCode, modifier::LMTA, Executor::FocusWorkspace),
        ((keys::KEY_2) as KeyCode, modifier::LMTA, Executor::FocusWorkspace),
        ((keys::KEY_3) as KeyCode, modifier::LMTA, Executor::FocusWorkspace),
        ((keys::KEY_4) as KeyCode, modifier::LMTA, Executor::FocusWorkspace),
        ((keys::KEY_5) as KeyCode, modifier::LMTA, Executor::FocusWorkspace),
        ((keys::KEY_6) as KeyCode, modifier::LMTA, Executor::FocusWorkspace),
        ((keys::KEY_7) as KeyCode, modifier::LMTA, Executor::FocusWorkspace),
        ((keys::KEY_8) as KeyCode, modifier::LMTA, Executor::FocusWorkspace),
        ((keys::KEY_9) as KeyCode, modifier::LMTA, Executor::FocusWorkspace),
        ((keys::KEY_10) as KeyCode, modifier::LMTA, Executor::FocusWorkspace),
        ((keys::KEY_RIGHT) as KeyCode, modifier::LMTA | modifier::LSHF, Executor::JumpRight),
        ((keys::KEY_DOWN) as KeyCode, modifier::LMTA | modifier::LSHF, Executor::JumpDown),
        ((keys::KEY_LEFT) as KeyCode, modifier::LMTA | modifier::LSHF, Executor::JumpLeft),
        ((keys::KEY_UP) as KeyCode, modifier::LMTA | modifier::LSHF, Executor::JumpUp),
        ((keys::KEY_1) as KeyCode, modifier::LMTA | modifier::LCTL, Executor::JumpToWorkspace),
        ((keys::KEY_2) as KeyCode, modifier::LMTA | modifier::LCTL, Executor::JumpToWorkspace),
        ((keys::KEY_3) as KeyCode, modifier::LMTA | modifier::LCTL, Executor::JumpToWorkspace),
        ((keys::KEY_4) as KeyCode, modifier::LMTA | modifier::LCTL, Executor::JumpToWorkspace),
        ((keys::KEY_5) as KeyCode, modifier::LMTA | modifier::LCTL, Executor::JumpToWorkspace),
        ((keys::KEY_6) as KeyCode, modifier::LMTA | modifier::LCTL, Executor::JumpToWorkspace),
        ((keys::KEY_7) as KeyCode, modifier::LMTA | modifier::LCTL, Executor::JumpToWorkspace),
        ((keys::KEY_8) as KeyCode, modifier::LMTA | modifier::LCTL, Executor::JumpToWorkspace),
        ((keys::KEY_9) as KeyCode, modifier::LMTA | modifier::LCTL, Executor::JumpToWorkspace),
        ((keys::KEY_RIGHT) as KeyCode, modifier::LMTA | modifier::LALT, Executor::DiveRight),
        ((keys::KEY_DOWN) as KeyCode, modifier::LMTA | modifier::LALT, Executor::DiveDown),
        ((keys::KEY_LEFT) as KeyCode, modifier::LMTA | modifier::LALT, Executor::DiveLeft),
        ((keys::KEY_UP) as KeyCode, modifier::LMTA | modifier::LALT, Executor::DiveUp),
        ((keys::KEY_1) as KeyCode, modifier::LMTA | modifier::LCTL | modifier::LSHF, Executor::DiveToWorkspace),
        ((keys::KEY_2) as KeyCode, modifier::LMTA | modifier::LCTL | modifier::LSHF, Executor::DiveToWorkspace),
        ((keys::KEY_3) as KeyCode, modifier::LMTA | modifier::LCTL | modifier::LSHF, Executor::DiveToWorkspace),
        ((keys::KEY_4) as KeyCode, modifier::LMTA | modifier::LCTL | modifier::LSHF, Executor::DiveToWorkspace),
        ((keys::KEY_5) as KeyCode, modifier::LMTA | modifier::LCTL | modifier::LSHF, Executor::DiveToWorkspace),
        ((keys::KEY_6) as KeyCode, modifier::LMTA | modifier::LCTL | modifier::LSHF, Executor::DiveToWorkspace),
        ((keys::KEY_7) as KeyCode, modifier::LMTA | modifier::LCTL | modifier::LSHF, Executor::DiveToWorkspace),
        ((keys::KEY_8) as KeyCode, modifier::LMTA | modifier::LCTL | modifier::LSHF, Executor::DiveToWorkspace),
        ((keys::KEY_9) as KeyCode, modifier::LMTA | modifier::LCTL | modifier::LSHF, Executor::DiveToWorkspace),
        ((keys::KEY_HOME) as KeyCode, modifier::LMTA, Executor::Exalt),
        ((keys::KEY_END) as KeyCode, modifier::LMTA, Executor::Ramify),
        ((keys::KEY_SPACE) as KeyCode, modifier::LALT, Executor::ToggleAnchorization),
    ]
}

/// Where a key points: the arrows to the four sides, page up and page down forward and backward,
/// home and end to the beginning and the end; other keys point nowhere.
pub open spec fn key_heading(code: KeyCode) -> Option<Direction> {
    if code == keys::KEY_UP as KeyCode {
        Some(Direction::North)
    } else if code == keys::KEY_DOWN as KeyCode {
        Some(Direction::South)
    } else if code == keys::KEY_LEFT as KeyCode {
        Some(Direction::West)
    } else if code == keys::KEY_RIGHT as KeyCode {
        Some(Direction::East)
    } else if code == keys::KEY_PAGEUP as KeyCode {
        Some(Direction::Forward)
    } else if code == keys::KEY_PAGEDOWN as KeyCode {
        Some(Direction::Backward)
    } else if code == keys::KEY_HOME as KeyCode {
        Some(Direction::Begin)
    } else if code == keys::KEY_END as KeyCode {
        Some(Direction::End)
    } else {
        None
    }
}

/// Whether a key is one of the four arrows.
pub open spec fn is_arrow(code: KeyCode) -> bool {
    code == keys::KEY_UP as KeyCode || code == keys::KEY_DOWN as KeyCode || code == keys::KEY_LEFT
        as KeyCode || code == keys::KEY_RIGHT as KeyCode
}

/// What an arrow does with Meta held in insert mode: with Meta alone it moves the focus, with
/// Shift as well it jumps, with Alt as well it dives.
pub open spec fn meta_arrow_action(modifiers: ModifierType) -> Option<Action> {
    if modifiers == modifier::LMTA {
        Some(Action::Focus)
    } else if modifiers == modifier::LMTA | modifier::LSHF {
        Some(Action::Jump)
    } else if modifiers == modifier::LMTA | modifier::LALT {
        Some(Action::Dive)
    } else {
        None
    }
}

/// In the default `normal` mode, a key that points somewhere puts its direction into the command
/// under construction, whatever the state, and executes nothing.
pub proof fn lemma_default_normal_keys_point_their_way(i: int, s: ContextState)
    requires
        0 <= i < default_normal_bindings().len(),
    ensures
        key_heading(default_normal_bindings()[i].0) matches Some(direction) ==> {
            let after = default_normal_bindings()[i].2.effect(s);
            after.command.direction == direction && after.executed == s.executed
        },
{
    if i == 0 {
        assert(default_normal_bindings()[i] == default_normal_bindings()[0]);
    } else if i == 1 {
        assert(default_normal_bindings()[i] == default_normal_bindings()[1]);
    } else if i == 2 {
        assert(default_normal_bindings()[i] == default_normal_bindings()[2]);
    } else if i == 3 {
        assert(default_normal_bindings()[i] == default_normal_bindings()[3]);
    } else if i == 4 {
        assert(default_normal_bindings()[i] == default_normal_bindings()[4]);
    } else if i == 5 {
        assert(default_normal_bindings()[i] == default_normal_bindings()[5]);
    } else if i == 6 {
        assert(default_normal_bindings()[i] == default_normal_bindings()[6]);
    } else if i == 7 {
        assert(default_normal_bindings()[i] == default_normal_bindings()[7]);
    } else if i == 8 {
        assert(default_normal_bindings()[i] == default_normal_bindings()[8]);
    } else if i == 9 {
        assert(default_normal_bindings()[i] == default_normal_bindings()[9]);
    } else if i == 10 {
        assert(default_normal_bindings()[i] == default_normal_bindings()[10]);
    } else if i == 11 {
        assert(default_normal_bindings()[i] == default_normal_bindings()[11]);
    } else if i == 12 {
        assert(default_normal_bindings()[i] == default_normal_bindings()[12]);
    } else if i == 13 {
        assert(default_normal_bindings()[i] == default_normal_bindings()[13]);
    } else if i == 14 {
        assert(default_normal_bindings()[i] == default_normal_bindings()[14]);
    } else if i == 15 {
        assert(default_normal_bindings()[i] == default_normal_bindings()[15]);
    } else if i == 16 {
        assert(default_normal_bindings()[i] == default_normal_bindings()[16]);
    } else if i == 17 {
        assert(default_normal_bindings()[i] == default_normal_bindings()[17]);
    } else if i == 18 {
        assert(default_normal_bindings()[i] == default_normal_bindings()[18]);
    } else if i == 19 {
        assert(default_normal_bindings()[i] == default_normal_bindings()[19]);
    } else if i == 20 {
        assert(default_normal_bindings()[i] == default_normal_bindings()[20]);
    } else if i == 21 {
        assert(default_normal_bindings()[i] == default_normal_bindings()[21]);
    } else if i == 22 {
        assert(default_normal_bindings()[i] == default_normal_bindings()[22]);
    } else if i == 23 {
        assert(default_normal_bindings()[i] == default_normal_bindings()[23]);
    } else if i == 24 {
        assert(default_normal_bindings()[i] == default_normal_bindings()[24]);
    } else if i == 25 {
        assert(default_normal_bindings()[i] == default_normal_bindings()[25]);
    } else if i == 26 {
        assert(default_normal_bindings()[i] == default_normal_bindings()[26]);
    } else if i == 27 {
        assert(default_normal_bindings()[i] == default_normal_bindings()[27]);
    } else if i == 28 {
        assert(default_normal_bindings()[i] == default_normal_bindings()[28]);
    } else {
        assert(false);
    }
}

/// In the default `insert` mode, a key that points somewhere executes a command going its way,
/// whatever the state; an arrow does so by one step, with the action that the Meta combination
/// held chooses. So Meta with the down arrow moves the focus south, and Meta with Alt and the
/// down arrow dives south.
pub proof fn lemma_default_insert_keys_point_their_way(i: int, s: ContextState)
    requires
        0 <= i < default_insert_bindings().len(),
    ensures
        key_heading(default_insert_bindings()[i].0) matches Some(direction) ==> {
            let after = default_insert_bindings()[i].2.effect(s);
            &&& after.executed == s.executed.push(after.command)
            &&& after.command.direction == direction
            &&& is_arrow(default_insert_bindings()[i].0) ==> after.command.magnitude == 1
                && meta_arrow_action(default_insert_bindings()[i].1) == Some(after.command.action)
        },
{
    assert(modifier::LMTA | modifier::LSHF == 0x44u16) by (bit_vector);
    assert(modifier::LMTA | modifier::LALT == 0x50u16) by (bit_vector);
    if i == 0 {
        assert(default_insert_bindings()[i] == default_insert_bindings()[0]);
    } else if i == 1 {
        assert(default_insert_bindings()[i] == default_insert_bindings()[1]);
    } else if i == 2 {
        assert(default_insert_bindings()[i] == default_insert_bindings()[2]);
    } else if i == 3 {
        assert(default_insert_bindings()[i] == default_insert_bindings()[3]);
    } else if i == 4 {
        assert(default_insert_bindings()[i] == default_insert_bindings()[4]);
    } else if i == 5 {
        assert(default_insert_bindings()[i] == default_insert_bindings()[5]);
    } else if i == 6 {
        assert(default_insert_bindings()[i] == default_insert_bindings()[6]);
    } else if i == 7 {
        assert(default_insert_bindings()[i] == default_insert_bindings()[7]);
    } else if i == 8 {
        assert(default_insert_bindings()[i] == default_insert_bindings()[8]);
    } else if i == 9 {
        assert(default_insert_bindings()[i] == default_insert_bindings()[9]);
    } else if i == 10 {
        assert(default_insert_bindings()[i] == default_insert_bindings()[10]);
    } else if i == 11 {
        assert(default_insert_bindings()[i] == default_insert_bindings()[11]);
    } else if i == 12 {
        assert(default_insert_bindings()[i] == default_insert_bindings()[12]);
    } else if i == 13 {
        assert(default_insert_bindings()[i] == default_insert_bindings()[13]);
    } else if i == 14 {
        assert(default_insert_bindings()[i] == default_insert_bindings()[14]);
    } else if i == 15 {
        assert(default_insert_bindings()[i] == default_insert_bindings()[15]);
    } else if i == 16 {
        assert(default_insert_bindings()[i] == default_insert_bindings()[16]);
    } else if i == 17 {
        assert(default_insert_bindings()[i] == default_insert_bindings()[17]);
    } else if i == 18 {
        assert(default_insert_bindings()[i] == default_insert_bindings()[18]);
    } else if i == 19 {
        assert(default_insert_bindings()[i] == default_insert_bindings()[19]);
    } else if i == 20 {
        assert(default_insert_bindings()[i] == default_insert_bindings()[20]);
    } else if i == 21 {
        assert(default_insert_bindings()[i] == default_insert_bindings()[21]);
    } else if i == 22 {
        assert(default_insert_bindings()[i] == default_insert_bindings()[22]);
    } else if i == 23 {
        assert(default_insert_bindings()[i] == default_insert_bindings()[23]);
    } else if i == 24 {
        assert(default_insert_bindings()[i] == default_insert_bindings()[24]);
    } else if i == 25 {
        assert(default_insert_bindings()[i] == default_insert_bindings()[25]);
    } else if i == 26 {
        assert(default_insert_bindings()[i] == default_insert_bindings()[26]);
    } else if i == 27 {
        assert(default_insert_bindings()[i] == default_insert_bindings()[27]);
    } else if i == 28 {
        assert(default_insert_bindings()[i] == default_insert_bindings()[28]);
    } else if i == 29 {
        assert(default_insert_bindings()[i] == default_insert_bindings()[29]);
    } else if i == 30 {
        assert(default_insert_bindings()[i] == default_insert_bindings()[30]);
    } else if i == 31 {
        assert(default_insert_bindings()[i] == default_insert_bindings()[31]);
    } else if i == 32 {
        assert(default_insert_bindings()[i] == default_insert_bindings()[32]);
    } else if i == 33 {
        assert(default_insert_bindings()[i] == default_insert_bindings()[33]);
    } else if i == 34 {
        assert(default_insert_bindings()[i] == default_insert_bindings()[34]);
    } else if i == 35 {
        assert(default_insert_bindings()[i] == default_insert_bindings()[35]);
    } else if i == 36 {
        assert(default_insert_bindings()[i] == default_insert_bindings()[36]);
    } else if i == 37 {
        assert(default_insert_bindings()[i] == default_insert_bindings()[37]);
    } else if i == 38 {
        assert(default_insert_bindings()[i] == default_insert_bindings()[38]);
    } else if i == 39 {
        assert(default_insert_bindings()[i] == default_insert_bindings()[39]);
    } else if i == 40 {
        assert(default_insert_bindings()[i] == default_insert_bindings()[40]);
    } else if i == 41 {
        assert(default_insert_bindings()[i] == default_insert_bindings()[41]);
    } else if i == 42 {
        assert(default_insert_bindings()[i] == default_insert_bindings()[42]);
    } else if i == 43 {
        assert(default_insert_bindings()[i] == default_insert_bindings()[43]);
    } else if i == 44 {
        assert(default_insert_bindings()[i] == default_insert_bindings()[44]);
    } else if i == 45 {
        assert(default_insert_bindings()[i] == default_insert_bindings()[45]);
    } else {
        assert(false);
    }
}

impl Default for KeybindingsConfig {
    fn default() -> (result: Self)
        ensures
            entries_view(result.common@) == default_common_bindings(),
            entries_view(result.normal@) == default_normal_bindings(),
            entries_view(result.insert@) == default_insert_bindings(),
    {
        let common = vec![
        BindingEntry::new(keys::KEY_ESC, modifier::LCTL | modifier::LMTA, Executor::Quit),
        ];
        let normal = vec![
        BindingEntry::new(keys::KEY_ESC, modifier::NONE, Executor::CleanCommand),
        BindingEntry::new(keys::KEY_H, modifier::NONE, Executor::Horizontalize),
        BindingEntry::new(keys::KEY_V, modifier::NONE, Executor::Verticalize),
        BindingEntry::new(keys::KEY_S, modifier::NONE, Executor::Stackize),
        BindingEntry::new(keys::KEY_I, modifier::NONE, Executor::SwapModeNormalToInsert),
        BindingEntry::new(keys::KEY_SPACE, modifier::NONE, Executor::SwapModeNormalToInsert),
        BindingEntry::new(keys::KEY_F, modifier::NONE, Executor::PutFocus),
        BindingEntry::new(keys::KEY_F, modifier::LSHF, Executor::PutSwap),
        BindingEntry::new(keys::KEY_J, modifier::NONE, Executor::PutJump),
        BindingEntry::new(keys::KEY_D, modifier::NONE, Executor::PutDive),
        BindingEntry::new(keys::KEY_M, modifier::NONE, Executor::PutMove),
        BindingEntry::new(keys::KEY_RIGHT, modifier::NONE, Executor::PutEast),
        BindingEntry::new(keys::KEY_LEFT, modifier::NONE, Executor::PutWest),
        BindingEntry::new(keys::KEY_UP, modifier::NONE, Executor::PutNorth),
        BindingEntry::new(keys::KEY_DOWN, modifier::NONE, Executor::PutSouth),
        BindingEntry::new(keys::KEY_PAGEUP, modifier::NONE, Executor::PutForward),
        BindingEntry::new(keys::KEY_PAGEDOWN, modifier::NONE, Executor::PutBackward),
        BindingEntry::new(keys::KEY_HOME, modifier::NONE, Executor::PutBegin),
        BindingEntry::new(keys::KEY_END, modifier::NONE, Executor::PutEnd),
        BindingEntry::new(keys::KEY_1, modifier::NONE, Executor::PutMagnitude),
        BindingEntry::new(keys::KEY_2, modifier::NONE, Executor::PutMagnitude),
        BindingEntry::new(keys::KEY_3, modifier::NONE, Executor::PutMagnitude),
        BindingEntry::new(keys::KEY_4, modifier::NONE, Executor::PutMagnitude),
        BindingEntry::new(keys::KEY_5, modifier::NONE, Executor::PutMagnitude),
        BindingEntry::new(keys::KEY_6, modifier::NONE, Executor::PutMagnitude),
        BindingEntry::new(keys::KEY_7, modifier::NONE, Executor::PutMagnitude),
        BindingEntry::new(keys::KEY_8, modifier::NONE, Executor::PutMagnitude),
        BindingEntry::new(keys::KEY_9, modifier::NONE, Executor::PutMagnitude),
        BindingEntry::new(keys::KEY_10, modifier::NONE, Executor::PutMagnitude),
        ];
        let insert = vec![
        BindingEntry::new(keys::KEY_ESC, modifier::LMTA, Executor::SwapModeInsertToNormal),
        BindingEntry::new(keys::KEY_RIGHT, modifier::LMTA, Executor::FocusRight),
        BindingEntry::new(keys::KEY_DOWN, modifier::LMTA, Executor::FocusDown),
        BindingEntry::new(keys::KEY_LEFT, modifier::LMTA, Executor::FocusLeft),
        BindingEntry::new(keys::KEY_UP, modifier::LMTA, Executor::FocusUp),
        BindingEntry::new(keys::KEY_TAB, modifier::LMTA, Executor::CicleHistoryForward),
        BindingEntry::new(keys::KEY_TAB, modifier::LMTA | modifier::LSHF, Executor::CicleHistoryBackward),
        BindingEntry::new(keys::KEY_1, modifier::LMTA, Executor::FocusWorkspace),
        BindingEntry::new(keys::KEY_2, modifier::LMTA, Executor::FocusWorkspace),
        BindingEntry::new(keys::KEY_3, modifier::LMTA, Executor::FocusWorkspace),
        BindingEntry::new(keys::KEY_4, modifier::LMTA, Executor::FocusWorkspace),
        BindingEntry::new(keys::KEY_5, modifier::LMTA, Executor::FocusWorkspace),
        BindingEntry::new(keys::KEY_6, modifier::LMTA, Executor::FocusWorkspace),
        BindingEntry::new(keys::KEY_7, modifier::LMTA, Executor::FocusWorkspace),
        BindingEntry::new(keys::KEY_8, modifier::LMTA, Executor::FocusWorkspace),
        BindingEntry::new(keys::KEY_9, modifier::LMTA, Executor::FocusWorkspace),
        BindingEntry::new(keys::KEY_10, modifier::LMTA, Executor::FocusWorkspace),
        BindingEntry::new(keys::KEY_RIGHT, modifier::LMTA | modifier::LSHF, Executor::JumpRight),
        BindingEntry::new(keys::KEY_DOWN, modifier::LMTA | modifier::LSHF, Executor::JumpDown),
        BindingEntry::new(keys::KEY_LEFT, modifier::LMTA | modifier::LSHF, Executor::JumpLeft),
        BindingEntry::new(keys::KEY_UP, modifier::LMTA | modifier::LSHF, Executor::JumpUp),
        BindingEntry::new(keys::KEY_1, modifier::LMTA | modifier::LCTL, Executor::JumpToWorkspace),
        BindingEntry::new(keys::KEY_2, modifier::LMTA | modifier::LCTL, Executor::JumpToWorkspace),
        BindingEntry::new(keys::KEY_3, modifier::LMTA | modifier::LCTL, Executor::JumpToWorkspace),
        BindingEntry::new(keys::KEY_4, modifier::LMTA | modifier::LCTL, Executor::JumpToWorkspace),
        BindingEntry::new(keys::KEY_5, modifier::LMTA | modifier::LCTL, Executor::JumpToWorkspace),
        BindingEntry::new(keys::KEY_6, modifier::LMTA | modifier::LCTL, Executor::JumpToWorkspace),
        BindingEntry::new(keys::KEY_7, modifier::LMTA | modifier::LCTL, Executor::JumpToWorkspace),
        BindingEntry::new(keys::KEY_8, modifier::LMTA | modifier::LCTL, Executor::JumpToWorkspace),
        BindingEntry::new(keys::KEY_9, modifier::LMTA | modifier::LCTL, Executor::JumpToWorkspace),
        BindingEntry::new(keys::KEY_RIGHT, modifier::LMTA | modifier::LALT, Executor::DiveRight),
        BindingEntry::new(keys::KEY_DOWN, modifier::LMTA | modifier::LALT, Executor::DiveDown),
        BindingEntry::new(keys::KEY_LEFT, modifier::LMTA | modifier::LALT, Executor::DiveLeft),
        BindingEntry::new(keys::KEY_UP, modifier::LMTA | modifier::LALT, Executor::DiveUp),
        BindingEntry::new(keys::KEY_1, modifier::LMTA | modifier::LCTL | modifier::LSHF, Executor::DiveToWorkspace),
        BindingEntry::new(keys::KEY_2, modifier::LMTA | modifier::LCTL | modifier::LSHF, Executor::DiveToWorkspace),
        BindingEntry::new(keys::KEY_3, modifier::LMTA | modifier::LCTL | modifier::LSHF, Executor::DiveToWorkspace),
        BindingEntry::new(keys::KEY_4, modifier::LMTA | modifier::LCTL | modifier::LSHF, Executor::DiveToWorkspace),
        BindingEntry::new(keys::KEY_5, modifier::LMTA | modifier::LCTL | modifier::LSHF, Executor::DiveToWorkspace),
        BindingEntry::new(keys::KEY_6, modifier::LMTA | modifier::LCTL | modifier::LSHF, Executor::DiveToWorkspace),
        BindingEntry::new(keys::KEY_7, modifier::LMTA | modifier::LCTL | modifier::LSHF, Executor::DiveToWorkspace),
        BindingEntry::new(keys::KEY_8, modifier::LMTA | modifier::LCTL | modifier::LSHF, Executor::DiveToWorkspace),
        BindingEntry::new(keys::KEY_9, modifier::LMTA | modifier::LCTL | modifier::LSHF, Executor::DiveToWorkspace),
        BindingEntry::new(keys::KEY_HOME, modifier::LMTA, Executor::Exalt),
        BindingEntry::new(keys::KEY_END, modifier::LMTA, Executor::Ramify),
        BindingEntry::new(keys::KEY_SPACE, modifier::LALT, Executor::ToggleAnchorization),
        ];
        assert(entries_view(common@) =~= default_common_bindings());
        assert(entries_view(normal@) =~= default_normal_bindings());
        assert(entries_view(insert@) =~= default_insert_bindings());
        KeybindingsConfig { common: common, insert: insert, normal: normal }
    }
}

/// Key code named in a configuration file (already in lower case); unknown names give space.
pub open spec fn key_code_for(name: Seq<char>) -> i32 {
    if name == "1"@ {
        keys::KEY_1
    } else if name == "2"@ {
        keys::KEY_2
    } else if name == "3"@ {
        keys::KEY_3
    } else if name == "4"@ {
        keys::KEY_4
    } else if name == "5"@ {
        keys::KEY_5
    } else if name == "6"@ {
        keys::KEY_6
    } else if name == "7"@ {
        keys::KEY_7
    } else if name == "8"@ {
        keys::KEY_8
    } else if name == "9"@ {
        keys::KEY_9
    } else if name == "0"@ {
        keys::KEY_10
    } else if name == "q"@ {
        keys::KEY_Q
    } else if name == "w"@ {
        keys::KEY_W
    } else if name == "e"@ {
        keys::KEY_E
    } else if name == "r"@ {
        keys::KEY_R
    } else if name == "t"@ {
        keys::KEY_T
    } else if name == "y"@ {
        keys::KEY_Y
    } else if name == "u"@ {
        keys::KEY_U
    } else if name == "i"@ {
        keys::KEY_I
    } else if name == "o"@ {
        keys::KEY_O
    } else if name == "p"@ {
        keys::KEY_P
    } else if name == "a"@ {
        keys::KEY_A
    } else if name == "s"@ {
        keys::KEY_S
    } else if name == "d"@ {
        keys::KEY_D
    } else if name == "f"@ {
        keys::KEY_F
    } else if name == "g"@ {
        keys::KEY_G
    } else if name == "h"@ {
        keys::KEY_H
    } else if name == "j"@ {
        keys::KEY_J
    } else if name == "k"@ {
        keys::KEY_K
    } else if name == "l"@ {
        keys::KEY_L
    } else if name == "z"@ {
        keys::KEY_Z
    } else if name == "x"@ {
        keys::KEY_X
    } else if name == "c"@ {
        keys::KEY_C
    } else if name == "v"@ {
        keys::KEY_V
    } else if name == "b"@ {
        keys::KEY_B
    } else if name == "n"@ {
        keys::KEY_N
    } else if name == "m"@ {
        keys::KEY_M
    } else if name == "space"@ {
        keys::KEY_SPACE
    } else {
        keys::KEY_SPACE
    }
}

/// The rows of a keyboard that key names of one character follow: the digits `1` to `0`, then the
/// letters `q` to `p`, `a` to `l` and `z` to `m`.
pub open spec fn keyboard_row(row: int) -> Seq<char> {
    if row == 0 {
        seq!['1', '2', '3', '4', '5', '6', '7', '8', '9', '0']
    } else if row == 1 {
        seq!['q', 'w', 'e', 'r', 't', 'y', 'u', 'i', 'o', 'p']
    } else if row == 2 {
        seq!['a', 's', 'd', 'f', 'g', 'h', 'j', 'k', 'l']
    } else {
        seq!['z', 'x', 'c', 'v', 'b', 'n', 'm']
    }
}

/// The kernel code of the first key of a keyboard row; the codes of a row are consecutive.
pub open spec fn keyboard_row_start(row: int) -> int {
    if row == 0 {
        2
    } else if row == 1 {
        16
    } else if row == 2 {
        30
    } else {
        44
    }
}

/// The upper case of a lower-case ASCII letter.
pub open spec fn ascii_upper_char(c: char) -> char {
    ((c as u32) - 32) as char
}

/// The key codes of the names of one character.
#[verifier::rlimit(40)]
proof fn lemma_single_character_key_codes()
    ensures
        key_code_for(seq!['1']) == 2,
        key_code_for(seq!['2']) == 3,
        key_code_for(seq!['3']) == 4,
        key_code_for(seq!['4']) == 5,
        key_code_for(seq!['5']) == 6,
        key_code_for(seq!['6']) == 7,
        key_code_for(seq!['7']) == 8,
        key_code_for(seq!['8']) == 9,
        key_code_for(seq!['9']) == 10,
        key_code_for(seq!['0']) == 11,
        key_code_for(seq!['q']) == 16,
        key_code_for(seq!['w']) == 17,
        key_code_for(seq!['e']) == 18,
        key_code_for(seq!['r']) == 19,
        key_code_for(seq!['t']) == 20,
        key_code_for(seq!['y']) == 21,
        key_code_for(seq!['u']) == 22,
        key_code_for(seq!['i']) == 23,
        key_code_for(seq!['o']) == 24,
        key_code_for(seq!['p']) == 25,
        key_code_for(seq!['a']) == 30,
        key_code_for(seq!['s']) == 31,
        key_code_for(seq!['d']) == 32,
        key_code_for(seq!['f']) == 33,
        key_code_for(seq!['g']) == 34,
        key_code_for(seq!['h']) == 35,
        key_code_for(seq!['j']) == 36,
        key_code_for(seq!['k']) == 37,
        key_code_for(seq!['l']) == 38,
        key_code_for(seq!['z']) == 44,
        key_code_for(seq!['x']) == 45,
        key_code_for(seq!['c']) == 46,
        key_code_for(seq!['v']) == 47,
        key_code_for(seq!['b']) == 48,
        key_code_for(seq!['n']) == 49,
        key_code_for(seq!['m']) == 50,
{
    reveal_strlit("1");
    reveal_strlit("2");
    reveal_strlit("3");
    reveal_strlit("4");
    reveal_strlit("5");
    reveal_strlit("6");
    reveal_strlit("7");
    reveal_strlit("8");
    reveal_strlit("9");
    reveal_strlit("0");
    reveal_strlit("q");
    reveal_strlit("w");
    reveal_strlit("e");
    reveal_strlit("r");
    reveal_strlit("t");
    reveal_strlit("y");
    reveal_strlit("u");
    reveal_strlit("i");
    reveal_strlit("o");
    reveal_strlit("p");
    reveal_strlit("a");
    reveal_strlit("s");
    reveal_strlit("d");
    reveal_strlit("f");
    reveal_strlit("g");
    reveal_strlit("h");
    reveal_strlit("j");
    reveal_strlit("k");
    reveal_strlit("l");
    reveal_strlit("z");
    reveal_strlit("x");
    reveal_strlit("c");
    reveal_strlit("v");
    reveal_strlit("b");
    reveal_strlit("n");
    reveal_strlit("m");
    reveal_strlit("space");
    assert(seq!['1'][0] == '1');
    assert(seq!['1'] =~= "1"@);
    assert(seq!['2'][0] == '2');
    assert(seq!['2'] =~= "2"@);
    assert(seq!['3'][0] == '3');
    assert(seq!['3'] =~= "3"@);
    assert(seq!['4'][0] == '4');
    assert(seq!['4'] =~= "4"@);
    assert(seq!['5'][0] == '5');
    assert(seq!['5'] =~= "5"@);
    assert(seq!['6'][0] == '6');
    assert(seq!['6'] =~= "6"@);
    assert(seq!['7'][0] == '7');
    assert(seq!['7'] =~= "7"@);
    assert(seq!['8'][0] == '8');
    assert(seq!['8'] =~= "8"@);
    assert(seq!['9'][0] == '9');
    assert(seq!['9'] =~= "9"@);
    assert(seq!['0'][0] == '0');
    assert(seq!['0'] =~= "0"@);
    assert(seq!['q'][0] == 'q');
    assert(seq!['q'] =~= "q"@);
    assert(seq!['w'][0] == 'w');
    assert(seq!['w'] =~= "w"@);
    assert(seq!['e'][0] == 'e');
    assert(seq!['e'] =~= "e"@);
    assert(seq!['r'][0] == 'r');
    assert(seq!['r'] =~= "r"@);
    assert(seq!['t'][0] == 't');
    assert(seq!['t'] =~= "t"@);
    assert(seq!['y'][0] == 'y');
    assert(seq!['y'] =~= "y"@);
    assert(seq!['u'][0] == 'u');
    assert(seq!['u'] =~= "u"@);
    assert(seq!['i'][0] == 'i');
    assert(seq!['i'] =~= "i"@);
    assert(seq!['o'][0] == 'o');
    assert(seq!['o'] =~= "o"@);
    assert(seq!['p'][0] == 'p');
    assert(seq!['p'] =~= "p"@);
    assert(seq!['a'][0] == 'a');
    assert(seq!['a'] =~= "a"@);
    assert(seq!['s'][0] == 's');
    assert(seq!['s'] =~= "s"@);
    assert(seq!['d'][0] == 'd');
    assert(seq!['d'] =~= "d"@);
    assert(seq!['f'][0] == 'f');
    assert(seq!['f'] =~= "f"@);
    assert(seq!['g'][0] == 'g');
    assert(seq!['g'] =~= "g"@);
    assert(seq!['h'][0] == 'h');
    assert(seq!['h'] =~= "h"@);
    assert(seq!['j'][0] == 'j');
    assert(seq!['j'] =~= "j"@);
    assert(seq!['k'][0] == 'k');
    assert(seq!['k'] =~= "k"@);
    assert(seq!['l'][0] == 'l');
    assert(seq!['l'] =~= "l"@);
    assert(seq!['z'][0] == 'z');
    assert(seq!['z'] =~= "z"@);
    assert(seq!['x'][0] == 'x');
    assert(seq!['x'] =~= "x"@);
    assert(seq!['c'][0] == 'c');
    assert(seq!['c'] =~= "c"@);
    assert(seq!['v'][0] == 'v');
    assert(seq!['v'] =~= "v"@);
    assert(seq!['b'][0] == 'b');
    assert(seq!['b'] =~= "b"@);
    assert(seq!['n'][0] == 'n');
    assert(seq!['n'] =~= "n"@);
    assert(seq!['m'][0] == 'm');
    assert(seq!['m'] =~= "m"@);
}

/// A key named by one character is the key of that character on the keyboard: the `i`-th key of a
/// row has the code of the row's first key plus `i`, and a letter names the same key in either
/// case. So `k` (or `K`) names the eighth key of the row `a` to `l`, kernel code 37.
pub proof fn lemma_key_names_follow_keyboard_rows(row: int, i: int)
    requires
        0 <= row < 4,
        0 <= i < keyboard_row(row).len(),
    ensures
        key_code_for(ascii_lowercase(seq![keyboard_row(row)[i]])) == keyboard_row_start(row) + i,
        row > 0 ==> key_code_for(ascii_lowercase(seq![ascii_upper_char(keyboard_row(row)[i])]))
            == keyboard_row_start(row) + i,
{
    lemma_single_character_key_codes();
    assert(keyboard_row(0).len() == 10);
    assert(keyboard_row(1).len() == 10);
    assert(keyboard_row(2).len() == 9);
    assert(keyboard_row(3).len() == 7);
    if row == 0 && i == 0 {
        assert(keyboard_row(row)[i] == '1');
        assert(ascii_lowercase(seq!['1']) =~= seq!['1']);
    } else if row == 0 && i == 1 {
        assert(keyboard_row(row)[i] == '2');
        assert(ascii_lowercase(seq!['2']) =~= seq!['2']);
    } else if row == 0 && i == 2 {
        assert(keyboard_row(row)[i] == '3');
        assert(ascii_lowercase(seq!['3']) =~= seq!['3']);
    } else if row == 0 && i == 3 {
        assert(keyboard_row(row)[i] == '4');
        assert(ascii_lowercase(seq!['4']) =~= seq!['4']);
    } else if row == 0 && i == 4 {
        assert(keyboard_row(row)[i] == '5');
        assert(ascii_lowercase(seq!['5']) =~= seq!['5']);
    } else if row == 0 && i == 5 {
        assert(keyboard_row(row)[i] == '6');
        assert(ascii_lowercase(seq!['6']) =~= seq!['6']);
    } else if row == 0 && i == 6 {
        assert(keyboard_row(row)[i] == '7');
        assert(ascii_lowercase(seq!['7']) =~= seq!['7']);
    } else if row == 0 && i == 7 {
        assert(keyboard_row(row)[i] == '8');
        assert(ascii_lowercase(seq!['8']) =~= seq!['8']);
    } else if row == 0 && i == 8 {
        assert(keyboard_row(row)[i] == '9');
        assert(ascii_lowercase(seq!['9']) =~= seq!['9']);
    } else if row == 0 && i == 9 {
        assert(keyboard_row(row)[i] == '0');
        assert(ascii_lowercase(seq!['0']) =~= seq!['0']);
    } else if row == 1 && i == 0 {
        assert(keyboard_row(row)[i] == 'q');
        assert(ascii_lowercase(seq!['q']) =~= seq!['q']);
        assert(ascii_lowercase(seq!['Q']) =~= seq!['q']);
    } else if row == 1 && i == 1 {
        assert(keyboard_row(row)[i] == 'w');
        assert(ascii_lowercase(seq!['w']) =~= seq!['w']);
        assert(ascii_lowercase(seq!['W']) =~= seq!['w']);
    } else if row == 1 && i == 2 {
        assert(keyboard_row(row)[i] == 'e');
        assert(ascii_lowercase(seq!['e']) =~= seq!['e']);
        assert(ascii_lowercase(seq!['E']) =~= seq!['e']);
    } else if row == 1 && i == 3 {
        assert(keyboard_row(row)[i] == 'r');
        assert(ascii_lowercase(seq!['r']) =~= seq!['r']);
        assert(ascii_lowercase(seq!['R']) =~= seq!['r']);
    } else if row == 1 && i == 4 {
        assert(keyboard_row(row)[i] == 't');
        assert(ascii_lowercase(seq!['t']) =~= seq!['t']);
        assert(ascii_lowercase(seq!['T']) =~= seq!['t']);
    } else if row == 1 && i == 5 {
        assert(keyboard_row(row)[i] == 'y');
        assert(ascii_lowercase(seq!['y']) =~= seq!['y']);
        assert(ascii_lowercase(seq!['Y']) =~= seq!['y']);
    } else if row == 1 && i == 6 {
        assert(keyboard_row(row)[i] == 'u');
        assert(ascii_lowercase(seq!['u']) =~= seq!['u']);
        assert(ascii_lowercase(seq!['U']) =~= seq!['u']);
    } else if row == 1 && i == 7 {
        assert(keyboard_row(row)[i] == 'i');
        assert(ascii_lowercase(seq!['i']) =~= seq!['i']);
        assert(ascii_lowercase(seq!['I']) =~= seq!['i']);
    } else if row == 1 && i == 8 {
        assert(keyboard_row(row)[i] == 'o');
        assert(ascii_lowercase(seq!['o']) =~= seq!['o']);
        assert(ascii_lowercase(seq!['O']) =~= seq!['o']);
    } else if row == 1 && i == 9 {
        assert(keyboard_row(row)[i] == 'p');
        assert(ascii_lowercase(seq!['p']) =~= seq!['p']);
        assert(ascii_lowercase(seq!['P']) =~= seq!['p']);
    } else if row == 2 && i == 0 {
        assert(keyboard_row(row)[i] == 'a');
        assert(ascii_lowercase(seq!['a']) =~= seq!['a']);
        assert(ascii_lowercase(seq!['A']) =~= seq!['a']);
    } else if row == 2 && i == 1 {
        assert(keyboard_row(row)[i] == 's');
        assert(ascii_lowercase(seq!['s']) =~= seq!['s']);
        assert(ascii_lowercase(seq!['S']) =~= seq!['s']);
    } else if row == 2 && i == 2 {
        assert(keyboard_row(row)[i] == 'd');
        assert(ascii_lowercase(seq!['d']) =~= seq!['d']);
        assert(ascii_lowercase(seq!['D']) =~= seq!['d']);
    } else if row == 2 && i == 3 {
        assert(keyboard_row(row)[i] == 'f');
        assert(ascii_lowercase(seq!['f']) =~= seq!['f']);
        assert(ascii_lowercase(seq!['F']) =~= seq!['f']);
    } else if row == 2 && i == 4 {
        assert(keyboard_row(row)[i] == 'g');
        assert(ascii_lowercase(seq!['g']) =~= seq!['g']);
        assert(ascii_lowercase(seq!['G']) =~= seq!['g']);
    } else if row == 2 && i == 5 {
        assert(keyboard_row(row)[i] == 'h');
        assert(ascii_lowercase(seq!['h']) =~= seq!['h']);
        assert(ascii_lowercase(seq!['H']) =~= seq!['h']);
    } else if row == 2 && i == 6 {
        assert(keyboard_row(row)[i] == 'j');
        assert(ascii_lowercase(seq!['j']) =~= seq!['j']);
        assert(ascii_lowercase(seq!['J']) =~= seq!['j']);
    } else if row == 2 && i == 7 {
        assert(keyboard_row(row)[i] == 'k');
        assert(ascii_lowercase(seq!['k']) =~= seq!['k']);
        assert(ascii_lowercase(seq!['K']) =~= seq!['k']);
    } else if row == 2 && i == 8 {
        assert(keyboard_row(row)[i] == 'l');
        assert(ascii_lowercase(seq!['l']) =~= seq!['l']);
        assert(ascii_lowercase(seq!['L']) =~= seq!['l']);
    } else if row == 3 && i == 0 {
        assert(keyboard_row(row)[i] == 'z');
        assert(ascii_lowercase(seq!['z']) =~= seq!['z']);
        assert(ascii_lowercase(seq!['Z']) =~= seq!['z']);
    } else if row == 3 && i == 1 {
        assert(keyboard_row(row)[i] == 'x');
        assert(ascii_lowercase(seq!['x']) =~= seq!['x']);
        assert(ascii_lowercase(seq!['X']) =~= seq!['x']);
    } else if row == 3 && i == 2 {
        assert(keyboard_row(row)[i] == 'c');
        assert(ascii_lowercase(seq!['c']) =~= seq!['c']);
        assert(ascii_lowercase(seq!['C']) =~= seq!['c']);
    } else if row == 3 && i == 3 {
        assert(keyboard_row(row)[i] == 'v');
        assert(ascii_lowercase(seq!['v']) =~= seq!['v']);
        assert(ascii_lowercase(seq!['V']) =~= seq!['v']);
    } else if row == 3 && i == 4 {
        assert(keyboard_row(row)[i] == 'b');
        assert(ascii_lowercase(seq!['b']) =~= seq!['b']);
        assert(ascii_lowercase(seq!['B']) =~= seq!['b']);
    } else if row == 3 && i == 5 {
        assert(keyboard_row(row)[i] == 'n');
        assert(ascii_lowercase(seq!['n']) =~= seq!['n']);
        assert(ascii_lowercase(seq!['N']) =~= seq!['n']);
    } else if row == 3 && i == 6 {
        assert(keyboard_row(row)[i] == 'm');
        assert(ascii_lowercase(seq!['m']) =~= seq!['m']);
        assert(ascii_lowercase(seq!['M']) =~= seq!['m']);
    } else {
        assert(false);
    }
}

/// Key modifier named in a configuration file (already in lower case); unknown names give the
/// right meta key.
pub open spec fn key_modifier_for(name: Seq<char>) -> ModifierType {
    if name == "lctl"@ {
        modifier::LCTL
    } else if name == "rctl"@ {
        modifier::RCTL
    } else if name == "lshift"@ {
        modifier::LSHF
    } else if name == "rshift"@ {
        modifier::RSHF
    } else if name == "lalt"@ {
        modifier::LALT
    } else if name == "ralt"@ {
        modifier::RALT
    } else if name == "lmeta"@ {
        modifier::LMTA
    } else if name == "rmeta"@ {
        modifier::RMTA
    } else {
        modifier::RMTA
    }
}

/// Handler named in a configuration file (already in lower case); unknown names give the handler
/// that does nothing.
pub open spec fn key_action_for(name: Seq<char>) -> Executor {
    if name == "nop"@ {
        Executor::Nop
    } else if name == "clean_command"@ {
        Executor::CleanCommand
    } else if name == "quit"@ {
        Executor::Quit
    } else if name == "put_focus"@ {
        Executor::PutFocus
    } else if name == "put_swap"@ {
        Executor::PutSwap
    } else if name == "put_jump"@ {
        Executor::PutJump
    } else if name == "put_dive"@ {
        Executor::PutDive
    } else if name == "put_move"@ {
        Executor::PutMove
    } else if name == "put_north"@ {
        Executor::PutNorth
    } else if name == "put_east"@ {
        Executor::PutEast
    } else if name == "put_south"@ {
        Executor::PutSouth
    } else if name == "put_west"@ {
        Executor::PutWest
    } else if name == "put_forward"@ {
        Executor::PutForward
    } else if name == "put_backward"@ {
        Executor::PutBackward
    } else if name == "put_begin"@ {
        Executor::PutBegin
    } else if name == "put_end"@ {
        Executor::PutEnd
    } else if name == "put_magnitude"@ {
        Executor::PutMagnitude
    } else if name == "horizontalize"@ {
        Executor::Horizontalize
    } else if name == "verticalize"@ {
        Executor::Verticalize
    } else if name == "stackize"@ {
        Executor::Stackize
    } else if name == "toggle_anchorization"@ {
        Executor::ToggleAnchorization
    } else if name == "cicle_history_forward"@ {
        Executor::CicleHistoryForward
    } else if name == "cicle_history_backward"@ {
        Executor::CicleHistoryBackward
    } else if name == "focus_right"@ {
        Executor::FocusRight
    } else if name == "focus_down"@ {
        Executor::FocusDown
    } else if name == "focus_left"@ {
        Executor::FocusLeft
    } else if name == "focus_up"@ {
        Executor::FocusUp
    } else if name == "jump_right"@ {
        Executor::JumpRight
    } else if name == "jump_down"@ {
        Executor::JumpDown
    } else if name == "jump_left"@ {
        Executor::JumpLeft
    } else if name == "jump_ip"@ {
        Executor::JumpUp
    } else if name == "exalt"@ {
        Executor::Exalt
    } else if name == "ramify"@ {
        Executor::Ramify
    } else if name == "dive_right"@ {
        Executor::DiveRight
    } else if name == "dive_down"@ {
        Executor::DiveDown
    } else if name == "dive_left"@ {
        Executor::DiveLeft
    } else if name == "dive_up"@ {
        Executor::DiveUp
    } else if name == "jump_to_workspace"@ {
        Executor::JumpToWorkspace
    } else if name == "dive_to_workspace"@ {
        Executor::DiveToWorkspace
    } else if name == "focus_workspace"@ {
        Executor::FocusWorkspace
    } else if name == "swap_mode_normal_to_insert"@ {
        Executor::SwapModeNormalToInsert
    } else if name == "swap_mode_insert_to_normal"@ {
        Executor::SwapModeInsertToNormal
    } else {
        Executor::Nop
    }
}

// ------------------------------------------------------------------------------------------------
// Loading configuration documents.

/// Text of an optional string.
pub open spec fn option_text(value: Option<String>) -> Option<Seq<char>> {
    match value {
        Some(s) => Some(s@),
        None => None,
    }
}

/// Path of the background image option.
pub open spec fn background_path_key() -> Seq<Seq<char>> {
    seq!["aesthetics"@, "background_path"@]
}

/// Path of the move step option.
pub open spec fn move_step_key() -> Seq<Seq<char>> {
    seq!["exhibitor"@, "compositor"@, "move_step"@]
}

/// Path of the placement strategy option.
pub open spec fn choose_target_key() -> Seq<Seq<char>> {
    seq!["exhibitor"@, "strategist"@, "choose_target"@]
}

/// Path of the floating strategy option.
pub open spec fn choose_floating_key() -> Seq<Seq<char>> {
    seq!["exhibitor"@, "strategist"@, "choose_floating"@]
}

/// Path of the keyboard layout option.
pub open spec fn layout_key() -> Seq<Seq<char>> {
    seq!["keyboard"@, "layout"@]
}

/// Path of the keyboard variant option.
pub open spec fn variant_key() -> Seq<Seq<char>> {
    seq!["keyboard"@, "variant"@]
}

/// Path of the bindings of the `insert` mode.
pub open spec fn insert_bindings_key() -> Seq<Seq<char>> {
    seq!["keybindings"@, "insert"@]
}

/// A text option after one more document: set when the document gives it as a string.
pub open spec fn text_option_step(path: Seq<Seq<char>>) -> spec_fn(Seq<char>, Yaml) -> Seq<char> {
    |current: Seq<char>, yaml: Yaml|
        match yaml_str(yaml_path(yaml, path)) {
            Some(text) => text,
            None => current,
        }
}

/// An optional text option after one more document: set when the document gives it as a string.
pub open spec fn optional_text_option_step(path: Seq<Seq<char>>) -> spec_fn(
    Option<Seq<char>>,
    Yaml,
) -> Option<Seq<char>> {
    |current: Option<Seq<char>>, yaml: Yaml|
        match yaml_str(yaml_path(yaml, path)) {
            Some(text) => Some(text),
            None => current,
        }
}

/// A number option after one more document: set, truncated to 32 bits, when the document gives
/// it as an integer.
pub open spec fn number_option_step(path: Seq<Seq<char>>) -> spec_fn(u32, Yaml) -> u32 {
    |current: u32, yaml: Yaml|
        match yaml_i64(yaml_path(yaml, path)) {
            Some(value) => value as u32,
            None => current,
        }
}

/// A key binding as a configuration document describes it: the name of its key, its modifiers,
/// and either the name of its action or the command it runs.
pub struct BindingDescription {
    pub key: Seq<char>,
    pub modifiers: ModifierType,
    pub action: Option<Seq<char>>,
    pub command: Seq<Seq<char>>,
}

/// Modifiers named by a list of names.
pub open spec fn modifiers_named(names: Seq<Seq<char>>) -> ModifierType {
    names.fold_left(
        modifier::NONE,
        |modifiers: ModifierType, name: Seq<char>|
            modifiers | key_modifier_for(ascii_lowercase(name)),
    )
}

/// The binding an entry of a binding list describes: it needs a key, a list of modifiers (read up
/// to the first one that is no string) and an action or a command to execute (read up to its
/// first part that is no string).
pub open spec fn binding_description(entry: Yaml) -> Option<BindingDescription> {
    match yaml_str(yaml_index(entry, "key"@)) {
        None => None,
        Some(key) => match yaml_items(yaml_index(entry, "mods"@)) {
            None => None,
            Some(mods) => {
                let modifiers = modifiers_named(leading(mods, string_text()));
                match yaml_str(yaml_index(entry, "action"@)) {
                    Some(action) => Some(
                        BindingDescription {
                            key: key,
                            modifiers: modifiers,
                            action: Some(action),
                            command: Seq::empty(),
                        },
                    ),
                    None => match yaml_items(yaml_index(entry, "execute"@)) {
                        Some(arguments) => Some(
                            BindingDescription {
                                key: key,
                                modifiers: modifiers,
                                action: None,
                                command: leading(arguments, string_text()),
                            },
                        ),
                        None => None,
                    },
                }
            },
        },
    }
}

pub open spec fn binding_description_of() -> spec_fn(Yaml) -> Option<BindingDescription> {
    |entry: Yaml| binding_description(entry)
}

/// Bindings of the `insert` mode a document adds: those of its list up to the first entry that
/// does not describe a binding.
pub open spec fn document_bindings(yaml: Yaml) -> Seq<BindingDescription> {
    match yaml_items(yaml_path(yaml, insert_bindings_key())) {
        Some(entries) => leading(entries, binding_description_of()),
        None => Seq::empty(),
    }
}

pub open spec fn bindings_step() -> spec_fn(Seq<BindingDescription>, Yaml) -> Seq<
    BindingDescription,
> {
    |bindings: Seq<BindingDescription>, yaml: Yaml| bindings + document_bindings(yaml)
}

/// Whether a binding entry is the one a description describes.
pub open spec fn describes(entry: BindingEntry, description: BindingDescription) -> bool {
    &&& entry.binding.spec_code() == key_code_for(ascii_lowercase(description.key)) as KeyCode
    &&& entry.binding.spec_modifiers() == description.modifiers
    &&& match description.action {
        Some(action) => entry.executor == key_action_for(ascii_lowercase(action)),
        None => entry.executor matches Executor::SpawnProcess(command) && command@.map_values(
            |part: String| part@,
        ) == description.command,
    }
}

/// Whether `entries` are `old` followed by entries for the described bindings.
pub open spec fn extended_by(
    entries: Seq<BindingEntry>,
    old: Seq<BindingEntry>,
    descriptions: Seq<BindingDescription>,
) -> bool {
    &&& entries.len() == old.len() + descriptions.len()
    &&& forall|i: int| 0 <= i < old.len() ==> entries[i] == old[i]
    &&& forall|k: int|
        0 <= k < descriptions.len() ==> describes(
            #[trigger] entries[old.len() + k],
            descriptions[k],
        )
}

/// Whether `config` is `old` with what the documents `yamls` set.
pub open spec fn loaded(config: Config, old: Config, yamls: Seq<Yaml>) -> bool {
    &&& option_text(config.spec_aesthetics().background_path) == yamls.fold_left(
        option_text(old.spec_aesthetics().background_path),
        optional_text_option_step(background_path_key()),
    )
    &&& config.spec_exhibitor().compositor.move_step == yamls.fold_left(
        old.spec_exhibitor().compositor.move_step,
        number_option_step(move_step_key()),
    )
    &&& config.spec_exhibitor().strategist.choose_target@ == yamls.fold_left(
        old.spec_exhibitor().strategist.choose_target@,
        text_option_step(choose_target_key()),
    )
    &&& config.spec_exhibitor().strategist.choose_floating@ == yamls.fold_left(
        old.spec_exhibitor().strategist.choose_floating@,
        text_option_step(choose_floating_key()),
    )
    &&& config.spec_keyboard().layout@ == yamls.fold_left(
        old.spec_keyboard().layout@,
        text_option_step(layout_key()),
    )
    &&& config.spec_keyboard().variant@ == yamls.fold_left(
        old.spec_keyboard().variant@,
        text_option_step(variant_key()),
    )
    &&& config.spec_keybindings().common == old.spec_keybindings().common
    &&& config.spec_keybindings().normal == old.spec_keybindings().normal
    &&& extended_by(
        config.spec_keybindings().insert@,
        old.spec_keybindings().insert@,
        yamls.fold_left(Seq::empty(), bindings_step()),
    )
}

/// Whether `config` is `old` with what the single document `yaml` sets.
pub open spec fn loaded_document(config: Config, old: Config, yaml: Yaml) -> bool {
    &&& option_text(config.spec_aesthetics().background_path) == optional_text_option_step(
        background_path_key(),
    )(option_text(old.spec_aesthetics().background_path), yaml)
    &&& config.spec_exhibitor().compositor.move_step == number_option_step(move_step_key())(
        old.spec_exhibitor().compositor.move_step,
        yaml,
    )
    &&& config.spec_exhibitor().strategist.choose_target@ == text_option_step(choose_target_key())(
        old.spec_exhibitor().strategist.choose_target@,
        yaml,
    )
    &&& config.spec_exhibitor().strategist.choose_floating@ == text_option_step(
        choose_floating_key(),
    )(old.spec_exhibitor().strategist.choose_floating@, yaml)
    &&& config.spec_keyboard().layout@ == text_option_step(layout_key())(
        old.spec_keyboard().layout@,
        yaml,
    )
    &&& config.spec_keyboard().variant@ == text_option_step(variant_key())(
        old.spec_keyboard().variant@,
        yaml,
    )
    &&& config.spec_keybindings().common == old.spec_keybindings().common
    &&& config.spec_keybindings().normal == old.spec_keybindings().normal
    &&& extended_by(
        config.spec_keybindings().insert@,
        old.spec_keybindings().insert@,
        document_bindings(yaml),
    )
}

/// Entries extended twice are extended by both lists of descriptions in turn.
proof fn lemma_extended_by_twice(
    a: Seq<BindingEntry>,
    b: Seq<BindingEntry>,
    c: Seq<BindingEntry>,
    first: Seq<BindingDescription>,
    second: Seq<BindingDescription>,
)
    requires
        extended_by(b, a, first),
        extended_by(c, b, second),
    ensures
        extended_by(c, a, first + second),
{
    let both = first + second;
    assert forall|k: int| 0 <= k < both.len() implies describes(
        #[trigger] c[a.len() + k],
        both[k],
    ) by {
        if k < first.len() {
            assert(c[a.len() + k] == b[a.len() + k]);
        } else {
            assert(c[b.len() + (k - first.len())] == c[a.len() + k]);
        }
    }
}

/// A path of two keys indexes twice.
proof fn lemma_path2(node: Yaml, a: Seq<char>, b: Seq<char>)
    ensures
        yaml_path(node, seq![a, b]) == yaml_index(yaml_index(node, a), b),
{
    let path = seq![a, b];
    let x = yaml_index(node, a);
    let rest = seq![b];
    assert(path[0] == a);
    assert(path.drop_first() =~= rest);
    assert(yaml_path(node, path) == yaml_path(x, rest));
    assert(rest[0] == b);
    assert(rest.drop_first() =~= Seq::<Seq<char>>::empty());
    assert(yaml_path(x, rest) == yaml_path(yaml_index(x, b), rest.drop_first()));
}

/// A path of three keys indexes three times.
proof fn lemma_path3(node: Yaml, a: Seq<char>, b: Seq<char>, c: Seq<char>)
    ensures
        yaml_path(node, seq![a, b, c]) == yaml_index(yaml_index(yaml_index(node, a), b), c),
{
    let path = seq![a, b, c];
    assert(path[0] == a);
    assert(path.drop_first() =~= seq![b, c]);
    assert(yaml_path(node, path) == yaml_path(yaml_index(node, a), seq![b, c]));
    lemma_path2(yaml_index(node, a), b, c);
}

/// Loading documents in two parts, one after the other, is loading them all at once.
pub proof fn lemma_load_in_parts(
    start: Config,
    middle: Config,
    end: Config,
    first: Seq<Yaml>,
    second: Seq<Yaml>,
)
    requires
        loaded(middle, start, first),
        loaded(end, middle, second),
    ensures
        loaded(end, start, first + second),
{
    let all = first + second;
    let k = first.len() as int;
    assert(all.subrange(0, k) =~= first);
    assert(all.subrange(k, all.len() as int) =~= second);
    all.lemma_fold_left_split(
        option_text(start.spec_aesthetics().background_path),
        optional_text_option_step(background_path_key()),
        k,
    );
    all.lemma_fold_left_split(
        start.spec_exhibitor().compositor.move_step,
        number_option_step(move_step_key()),
        k,
    );
    all.lemma_fold_left_split(
        start.spec_exhibitor().strategist.choose_target@,
        text_option_step(choose_target_key()),
        k,
    );
    all.lemma_fold_left_split(
        start.spec_exhibitor().strategist.choose_floating@,
        text_option_step(choose_floating_key()),
        k,
    );
    all.lemma_fold_left_split(start.spec_keyboard().layout@, text_option_step(layout_key()), k);
    all.lemma_fold_left_split(start.spec_keyboard().variant@, text_option_step(variant_key()), k);
    all.lemma_fold_left_split(Seq::<BindingDescription>::empty(), bindings_step(), k);
    lemma_bindings_fold_append(second, first.fold_left(Seq::empty(), bindings_step()));
    lemma_extended_by_twice(
        start.spec_keybindings().insert@,
        middle.spec_keybindings().insert@,
        end.spec_keybindings().insert@,
        first.fold_left(Seq::empty(), bindings_step()),
        second.fold_left(Seq::empty(), bindings_step()),
    );
}

/// Collecting the bindings of documents after some already collected appends them.
proof fn lemma_bindings_fold_append(yamls: Seq<Yaml>, start: Seq<BindingDescription>)
    ensures
        yamls.fold_left(start, bindings_step()) == start + yamls.fold_left(
            Seq::empty(),
            bindings_step(),
        ),
    decreases yamls.len(),
{
    if yamls.len() == 0 {
        assert(start + Seq::<BindingDescription>::empty() =~= start);
    } else {
        lemma_bindings_fold_append(yamls.drop_last(), start);
        let rest = yamls.drop_last().fold_left(Seq::<BindingDescription>::empty(), bindings_step());
        assert(start + rest + document_bindings(yamls.last()) =~= start + (rest
            + document_bindings(yamls.last())));
    }
}

/// Folding over the first `i + 1` items is one step after folding over the first `i`.
proof fn lemma_fold_take<A, B>(items: Seq<A>, init: B, f: spec_fn(B, A) -> B, i: int)
    requires
        0 <= i < items.len(),
    ensures
        items.take(i + 1).fold_left(init, f) == f(items.take(i).fold_left(init, f), items[i]),
{
    assert(items.take(i + 1).drop_last() =~= items.take(i));
}

/// Reads the texts of the strings that start a list of nodes.
fn leading_texts(items: &Vec<Yaml>) -> (result: Vec<String>)
    ensures
        result@.map_values(|part: String| part@) == leading(items@, string_text()),
{
    let mut texts: Vec<String> = Vec::new();
    let mut i: usize = 0;
    while i < items.len()
        invariant_except_break
            i <= items.len(),
            forall|k: int| 0 <= k < i ==> yaml_str(#[trigger] items@[k]) is Some,
            texts@.map_values(|part: String| part@) == items@.take(i as int).map_values(
                |n: Yaml| string_text()(n)->0,
            ),
        ensures
            i <= items.len(),
            forall|k: int| 0 <= k < i ==> yaml_str(#[trigger] items@[k]) is Some,
            i == items.len() || yaml_str(items@[i as int]) is None,
            texts@.map_values(|part: String| part@) == items@.take(i as int).map_values(
                |n: Yaml| string_text()(n)->0,
            ),
        decreases items.len() - i,
    {
        match &items[i] {
            Yaml::String(text) => {
                let ghost before = texts@;
                texts.push(text.clone());
                proof {
                    let g = |n: Yaml| string_text()(n)->0;
                    assert(g(items@[i as int]) == text@);
                    assert(items@.take(i + 1).map_values(g) =~= items@.take(i as int).map_values(
                        g,
                    ).push(g(items@[i as int])));
                    assert(texts@.map_values(|part: String| part@) =~= before.map_values(
                        |part: String| part@,
                    ).push(text@));
                }
            },
            _ => {
                break ;
            },
        }
        i = i + 1;
    }
    proof {
        lemma_leading_end(items@, string_text(), i as int);
    }
    texts
}

/// Reads the modifiers named by the strings that start a list of nodes.
fn leading_modifiers(items: &Vec<Yaml>) -> (result: ModifierType)
    ensures
        result == modifiers_named(leading(items@, string_text())),
{
    let names = leading_texts(items);
    let ghost views = names@.map_values(|part: String| part@);
    let mut modifiers = modifier::NONE;
    let mut i: usize = 0;
    while i < names.len()
        invariant
            i <= names.len(),
            views == names@.map_values(|part: String| part@),
            modifiers == modifiers_named(views.take(i as int)),
        decreases names.len() - i,
    {
        proof {
            assert(views.take(i + 1).drop_last() =~= views.take(i as int));
            assert(views[i as int] == names@[i as int]@);
        }
        modifiers = modifiers | Config::string_to_key_mod(names[i].as_str());
        i = i + 1;
    }
    assert(views.take(names@.len() as int) =~= views);
    modifiers
}

/// Reads one entry of a binding list.
fn read_binding(entry: &Yaml) -> (result: Option<BindingEntry>)
    ensures
        match binding_description(*entry) {
            Some(description) => result is Some && describes(result->0, description),
            None => result is None,
        },
{
    let node = Some(entry);
    let code = match as_str(index(node, "key")) {
        Some(value) => Config::string_to_key_code(value.as_str()),
        None => return None,
    };
    let modifiers = match as_vec(index(node, "mods")) {
        Some(mods) => leading_modifiers(mods),
        None => return None,
    };
    let executor = match as_str(index(node, "action")) {
        Some(value) => Config::string_to_key_action(value.as_str()),
        None => match as_vec(index(node, "execute")) {
            Some(arguments) => Config::vec_to_key_command(leading_texts(arguments)),
            None => return None,
        },
    };
    Some(BindingEntry::new(code, modifiers, executor))
}

/// Global configuration, apart from the tuning of input devices.
#[derive(Clone, Debug)]
pub struct Config {
    /// Config for aesthetics.
    aesthetics: AestheticsConfig,

    /// Config for exhibitor.
    exhibitor: ExhibitorConfig,

    /// Config for keyboard.
    keyboard: KeyboardConfig,

    /// Set of key bindings.
    keybindings: KeybindingsConfig,
}

impl Config {
    /// Config for aesthetics.
    pub closed spec fn spec_aesthetics(&self) -> AestheticsConfig {
        self.aesthetics
    }

    /// Config for exhibitor.
    pub closed spec fn spec_exhibitor(&self) -> ExhibitorConfig {
        self.exhibitor
    }

    /// Config for keyboard.
    pub closed spec fn spec_keyboard(&self) -> KeyboardConfig {
        self.keyboard
    }

    /// Set of key bindings.
    pub closed spec fn spec_keybindings(&self) -> KeybindingsConfig {
        self.keybindings
    }

    /// Constructs new `Config`.
    pub fn new(
        aesthetics: AestheticsConfig,
        exhibitor: ExhibitorConfig,
        keyboard: KeyboardConfig,
        keybindings: KeybindingsConfig,
    ) -> (result: Self)
        ensures
            result.spec_aesthetics() == aesthetics,
            result.spec_exhibitor() == exhibitor,
            result.spec_keyboard() == keyboard,
            result.spec_keybindings() == keybindings,
    {
        Config {
            aesthetics: aesthetics,
            exhibitor: exhibitor,
            keyboard: keyboard,
            keybindings: keybindings,
        }
    }

    /// Override current setting with setting found in given YAML documents.
    pub fn load(&mut self, yamls: &Vec<Yaml>)
        ensures
            loaded(*final(self), *old(self), yamls@),
    {
        let mut i: usize = 0;
        while i < yamls.len()
            invariant
                i <= yamls.len(),
                loaded(*self, *old(self), yamls@.take(i as int)),
            decreases yamls.len() - i,
        {
            proof {
                let y = yamls@;
                lemma_fold_take(y, option_text(old(self).aesthetics.background_path), optional_text_option_step(background_path_key()), i as int);
                lemma_fold_take(y, old(self).exhibitor.compositor.move_step, number_option_step(move_step_key()), i as int);
                lemma_fold_take(y, old(self).exhibitor.strategist.choose_target@, text_option_step(choose_target_key()), i as int);
                lemma_fold_take(y, old(self).exhibitor.strategist.choose_floating@, text_option_step(choose_floating_key()), i as int);
                lemma_fold_take(y, old(self).keyboard.layout@, text_option_step(layout_key()), i as int);
                lemma_fold_take(y, old(self).keyboard.variant@, text_option_step(variant_key()), i as int);
                lemma_fold_take(y, Seq::<BindingDescription>::empty(), bindings_step(), i as int);
            }
            let ghost before = *self;
            self.load_document(&yamls[i]);
            proof {
                lemma_extended_by_twice(
                    old(self).spec_keybindings().insert@,
                    before.spec_keybindings().insert@,
                    self.spec_keybindings().insert@,
                    yamls@.take(i as int).fold_left(Seq::empty(), bindings_step()),
                    document_bindings(yamls@[i as int]),
                );
            }
            i = i + 1;
        }
        assert(yamls@.take(yamls@.len() as int) =~= yamls@);
    }

    /// Loads a configuration file from its text: the YAML documents it holds override the
    /// settings in order. When the text does not parse, the parser's message is returned and the
    /// configuration is left as it was.
    pub fn load_text(&mut self, text: &str) -> (result: Result<(), String>)
        ensures
            match yaml_documents(text@) {
                Ok(documents) => result is Ok && loaded(*final(self), *old(self), documents),
                Err(message) => result is Err && result->Err_0@ == message && *final(self)
                    == *old(self),
            },
    {
        let parsed = parse_yaml(text);
        self.load_parsed(parsed)
    }

    /// Loads the outcome of parsing a configuration file: its documents in order when it parsed,
    /// or else the parser's message, which is returned with the configuration left as it was.
    pub fn load_parsed(&mut self, parsed: Result<Vec<Yaml>, String>) -> (result: Result<(), String>)
        ensures
            match parsed {
                Ok(documents) => result is Ok && loaded(*final(self), *old(self), documents@),
                Err(message) => result is Err && result->Err_0@ == message@ && *final(self)
                    == *old(self),
            },
    {
        match parsed {
            Ok(documents) => {
                self.load(&documents);
                Ok(())
            },
            Err(message) => Err(message),
        }
    }

    /// Override current setting with setting found in one YAML document.
    fn load_document(&mut self, yaml: &Yaml)
        ensures
            loaded_document(*final(self), *old(self), *yaml),
    {
        let node = Some(yaml);
        proof {
            lemma_path2(*yaml, "aesthetics"@, "background_path"@);
            lemma_path3(*yaml, "exhibitor"@, "compositor"@, "move_step"@);
            lemma_path3(*yaml, "exhibitor"@, "strategist"@, "choose_target"@);
            lemma_path3(*yaml, "exhibitor"@, "strategist"@, "choose_floating"@);
            lemma_path2(*yaml, "keyboard"@, "layout"@);
            lemma_path2(*yaml, "keyboard"@, "variant"@);
            lemma_path2(*yaml, "keybindings"@, "insert"@);
        }
        if let Some(value) = as_str(index(index(node, "aesthetics"), "background_path")) {
            self.aesthetics.background_path = Some(value.clone());
        }
        if let Some(value) = as_i64(index(index(index(node, "exhibitor"), "compositor"), "move_step")) {
            self.exhibitor.compositor.move_step = #[verifier::truncate] (value as u32);
        }
        let strategist = index(index(node, "exhibitor"), "strategist");
        if let Some(value) = as_str(index(strategist, "choose_target")) {
            self.exhibitor.strategist.choose_target = value.clone();
        }
        if let Some(value) = as_str(index(strategist, "choose_floating")) {
            self.exhibitor.strategist.choose_floating = value.clone();
        }
        let keyboard = index(node, "keyboard");
        if let Some(value) = as_str(index(keyboard, "layout")) {
            self.keyboard.layout = value.clone();
        }
        if let Some(value) = as_str(index(keyboard, "variant")) {
            self.keyboard.variant = value.clone();
        }
        let ghost before = self.keybindings.insert@;
        let ghost fixed = *self;
        if let Some(entries) = as_vec(index(index(node, "keybindings"), "insert")) {
            let mut k: usize = 0;
            while k < entries.len()
                invariant_except_break
                    k <= entries.len(),
                    forall|j: int| 0 <= j < k ==> binding_description(#[trigger] entries@[j]) is Some,
                    extended_by(self.keybindings.insert@, before, entries@.take(k as int).map_values(|n: Yaml| binding_description_of()(n)->0)),
                invariant
                    self.aesthetics == fixed.aesthetics,
                    self.exhibitor == fixed.exhibitor,
                    self.keyboard == fixed.keyboard,
                    self.keybindings.common == fixed.keybindings.common,
                    self.keybindings.normal == fixed.keybindings.normal,
                ensures
                    k <= entries.len(),
                    forall|j: int| 0 <= j < k ==> binding_description(#[trigger] entries@[j]) is Some,
                    k == entries.len() || binding_description(entries@[k as int]) is None,
                    extended_by(self.keybindings.insert@, before, entries@.take(k as int).map_values(|n: Yaml| binding_description_of()(n)->0)),
                decreases entries.len() - k,
            {
                let entry = match read_binding(&entries[k]) {
                    Some(entry) => entry,
                    None => break ,
                };
                let ghost inserted = self.keybindings.insert@;
                self.keybindings.insert.push(entry);
                proof {
                    let descriptions = entries@.take(k + 1).map_values(|n: Yaml| binding_description_of()(n)->0);
                    assert(descriptions =~= entries@.take(k as int).map_values(|n: Yaml| binding_description_of()(n)->0).push(binding_description(entries@[k as int])->0));
                    assert(self.keybindings.insert@[before.len() + k] == entry);
                    assert forall|j: int| 0 <= j < descriptions.len() implies describes(
                        #[trigger] self.keybindings.insert@[before.len() + j],
                        descriptions[j],
                    ) by {
                        if j < k {
                            assert(self.keybindings.insert@[before.len() + j] == inserted[before.len() + j]);
                        }
                    }
                }
                k = k + 1;
            }
            proof {
                lemma_leading_end(entries@, binding_description_of(), k as int);
            }
        }
    }

    /// Translates string to key code.
    pub fn string_to_key_code(value: &str) -> (result: i32)
        ensures
            result == key_code_for(ascii_lowercase(value@)),
    {
        let lower = to_ascii_lowercase(value);
        let name = lower.as_str();
        if str_eq(name, "1") {
            keys::KEY_1
        } else if str_eq(name, "2") {
            keys::KEY_2
        } else if str_eq(name, "3") {
            keys::KEY_3
        } else if str_eq(name, "4") {
            keys::KEY_4
        } else if str_eq(name, "5") {
            keys::KEY_5
        } else if str_eq(name, "6") {
            keys::KEY_6
        } else if str_eq(name, "7") {
            keys::KEY_7
        } else if str_eq(name, "8") {
            keys::KEY_8
        } else if str_eq(name, "9") {
            keys::KEY_9
        } else if str_eq(name, "0") {
            keys::KEY_10
        } else if str_eq(name, "q") {
            keys::KEY_Q
        } else if str_eq(name, "w") {
            keys::KEY_W
        } else if str_eq(name, "e") {
            keys::KEY_E
        } else if str_eq(name, "r") {
            keys::KEY_R
        } else if str_eq(name, "t") {
            keys::KEY_T
        } else if str_eq(name, "y") {
            keys::KEY_Y
        } else if str_eq(name, "u") {
            keys::KEY_U
        } else if str_eq(name, "i") {
            keys::KEY_I
        } else if str_eq(name, "o") {
            keys::KEY_O
        } else if str_eq(name, "p") {
            keys::KEY_P
        } else if str_eq(name, "a") {
            keys::KEY_A
        } else if str_eq(name, "s") {
            keys::KEY_S
        } else if str_eq(name, "d") {
            keys::KEY_D
        } else if str_eq(name, "f") {
            keys::KEY_F
        } else if str_eq(name, "g") {
            keys::KEY_G
        } else if str_eq(name, "h") {
            keys::KEY_H
        } else if str_eq(name, "j") {
            keys::KEY_J
        } else if str_eq(name, "k") {
            keys::KEY_K
        } else if str_eq(name, "l") {
            keys::KEY_L
        } else if str_eq(name, "z") {
            keys::KEY_Z
        } else if str_eq(name, "x") {
            keys::KEY_X
        } else if str_eq(name, "c") {
            keys::KEY_C
        } else if str_eq(name, "v") {
            keys::KEY_V
        } else if str_eq(name, "b") {
            keys::KEY_B
        } else if str_eq(name, "n") {
            keys::KEY_N
        } else if str_eq(name, "m") {
            keys::KEY_M
        } else if str_eq(name, "space") {
            keys::KEY_SPACE
        } else {
            keys::KEY_SPACE
        }
    }

    /// Translates string to key modifier.
    pub fn string_to_key_mod(value: &str) -> (result: ModifierType)
        ensures
            result == key_modifier_for(ascii_lowercase(value@)),
    {
        let lower = to_ascii_lowercase(value);
        let name = lower.as_str();
        if str_eq(name, "lctl") {
            modifier::LCTL
        } else if str_eq(name, "rctl") {
            modifier::RCTL
        } else if str_eq(name, "lshift") {
            modifier::LSHF
        } else if str_eq(name, "rshift") {
            modifier::RSHF
        } else if str_eq(name, "lalt") {
            modifier::LALT
        } else if str_eq(name, "ralt") {
            modifier::RALT
        } else if str_eq(name, "lmeta") {
            modifier::LMTA
        } else if str_eq(name, "rmeta") {
            modifier::RMTA
        } else {
            modifier::RMTA
        }
    }

    /// Constructs new executor to given action.
    pub fn string_to_key_action(value: &str) -> (result: Executor)
        ensures
            result == key_action_for(ascii_lowercase(value@)),
    {
        let lower = to_ascii_lowercase(value);
        let name = lower.as_str();
        if str_eq(name, "nop") {
            Executor::Nop
        } else if str_eq(name, "clean_command") {
            Executor::CleanCommand
        } else if str_eq(name, "quit") {
            Executor::Quit
        } else if str_eq(name, "put_focus") {
            Executor::PutFocus
        } else if str_eq(name, "put_swap") {
            Executor::PutSwap
        } else if str_eq(name, "put_jump") {
            Executor::PutJump
        } else if str_eq(name, "put_dive") {
            Executor::PutDive
        } else if str_eq(name, "put_move") {
            Executor::PutMove
        } else if str_eq(name, "put_north") {
            Executor::PutNorth
        } else if str_eq(name, "put_east") {
            Executor::PutEast
        } else if str_eq(name, "put_south") {
            Executor::PutSouth
        } else if str_eq(name, "put_west") {
            Executor::PutWest
        } else if str_eq(name, "put_forward") {
            Executor::PutForward
        } else if str_eq(name, "put_backward") {
            Executor::PutBackward
        } else if str_eq(name, "put_begin") {
            Executor::PutBegin
        } else if str_eq(name, "put_end") {
            Executor::PutEnd
        } else if str_eq(name, "put_magnitude") {
            Executor::PutMagnitude
        } else if str_eq(name, "horizontalize") {
            Executor::Horizontalize
        } else if str_eq(name, "verticalize") {
            Executor::Verticalize
        } else if str_eq(name, "stackize") {
            Executor::Stackize
        } else if str_eq(name, "toggle_anchorization") {
            Executor::ToggleAnchorization
        } else if str_eq(name, "cicle_history_forward") {
            Executor::CicleHistoryForward
        } else if str_eq(name, "cicle_history_backward") {
            Executor::CicleHistoryBackward
        } else if str_eq(name, "focus_right") {
            Executor::FocusRight
        } else if str_eq(name, "focus_down") {
            Executor::FocusDown
        } else if str_eq(name, "focus_left") {
            Executor::FocusLeft
        } else if str_eq(name, "focus_up") {
            Executor::FocusUp
        } else if str_eq(name, "jump_right") {
            Executor::JumpRight
        } else if str_eq(name, "jump_down") {
            Executor::JumpDown
        } else if str_eq(name, "jump_left") {
            Executor::JumpLeft
        } else if str_eq(name, "jump_ip") {
            Executor::JumpUp
        } else if str_eq(name, "exalt") {
            Executor::Exalt
        } else if str_eq(name, "ramify") {
            Executor::Ramify
        } else if str_eq(name, "dive_right") {
            Executor::DiveRight
        } else if str_eq(name, "dive_down") {
            Executor::DiveDown
        } else if str_eq(name, "dive_left") {
            Executor::DiveLeft
        } else if str_eq(name, "dive_up") {
            Executor::DiveUp
        } else if str_eq(name, "jump_to_workspace") {
            Executor::JumpToWorkspace
        } else if str_eq(name, "dive_to_workspace") {
            Executor::DiveToWorkspace
        } else if str_eq(name, "focus_workspace") {
            Executor::FocusWorkspace
        } else if str_eq(name, "swap_mode_normal_to_insert") {
            Executor::SwapModeNormalToInsert
        } else if str_eq(name, "swap_mode_insert_to_normal") {
            Executor::SwapModeInsertToNormal
        } else {
            Executor::Nop
        }
    }

    /// Constructs new executor to given command.
    pub fn vec_to_key_command(command: Vec<String>) -> (result: Executor)
        ensures
            result == Executor::SpawnProcess(command),
    {
        Executor::SpawnProcess(command)
    }

    /// Returns config for aesthetics.
    pub fn get_aesthetics_config(&self) -> (result: &AestheticsConfig)
        ensures
            *result == self.spec_aesthetics(),
    {
        &self.aesthetics
    }

    /// Returns config for exhibitor.
    pub fn get_exhibitor_config(&self) -> (result: &ExhibitorConfig)
        ensures
            *result == self.spec_exhibitor(),
    {
        &self.exhibitor
    }

    /// Returns configuration for keyboard.
    pub fn get_keyboard_config(&self) -> (result: &KeyboardConfig)
        ensures
            *result == self.spec_keyboard(),
    {
        &self.keyboard
    }

    /// Returns configuration for key binding.
    pub fn get_keybindings_config(&self) -> (result: &KeybindingsConfig)
        ensures
            *result == self.spec_keybindings(),
    {
        &self.keybindings
    }
}

impl Default for Config {
    fn default() -> (result: Self)
        ensures
            result.spec_aesthetics().background_path is None,
            result.spec_exhibitor().compositor.move_step == 10,
            result.spec_exhibitor().strategist.choose_target@ == "always_floating"@,
            result.spec_exhibitor().strategist.choose_floating@ == "random"@,
            result.spec_keyboard().layout@ == "us"@,
            result.spec_keyboard().variant@ == ""@,
            entries_view(result.spec_keybindings().common@) == default_common_bindings(),
            entries_view(result.spec_keybindings().normal@) == default_normal_bindings(),
            entries_view(result.spec_keybindings().insert@) == default_insert_bindings(),
    {
        Config::new(
            AestheticsConfig::default(),
            ExhibitorConfig::default(),
            KeyboardConfig::default(),
            KeybindingsConfig::default(),
        )
    }
}

} // verus!
