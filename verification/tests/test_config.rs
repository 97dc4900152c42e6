use perceptia::binding_functions::Executor;
use perceptia::config::{Config, KeybindingsConfig};
use perceptia::keys;
use perceptia::modifier;
use perceptia::yaml::{parse_yaml, Yaml};

fn text(s: &str) -> Yaml {
    Yaml::String(s.to_string())
}

fn map(entries: Vec<(&str, Yaml)>) -> Yaml {
    Yaml::Hash(entries.into_iter().map(|(k, v)| (text(k), v)).collect())
}

#[test]
fn default_config_holds_default_settings() {
    let config = Config::default();
    assert_eq!(config.get_aesthetics_config().background_path, None);
    assert_eq!(config.get_exhibitor_config().compositor.move_step, 10);
    assert_eq!(config.get_exhibitor_config().strategist.choose_target, "always_floating");
    assert_eq!(config.get_exhibitor_config().strategist.choose_floating, "random");
    assert_eq!(config.get_keyboard_config().layout, "us");
    assert_eq!(config.get_keyboard_config().variant, "");
    let bindings = config.get_keybindings_config();
    assert_eq!(bindings.common.len(), 1);
    assert_eq!(bindings.common[0].executor, Executor::Quit);
    assert_eq!(bindings.normal.len(), 29);
    assert_eq!(bindings.insert.len(), 46);
}

#[test]
fn key_names_are_translated() {
    assert_eq!(Config::string_to_key_code("a"), keys::KEY_A);
    assert_eq!(Config::string_to_key_code("A"), keys::KEY_A);
    assert_eq!(Config::string_to_key_code("0"), keys::KEY_10);
    assert_eq!(Config::string_to_key_code("no such key"), keys::KEY_SPACE);
    assert_eq!(Config::string_to_key_mod("LMeta"), modifier::LMTA);
    assert_eq!(Config::string_to_key_mod("lshift"), modifier::LSHF);
    assert_eq!(Config::string_to_key_action("Focus_Right"), Executor::FocusRight);
    assert_eq!(Config::string_to_key_action("unknown"), Executor::Nop);
    assert_eq!(
        Config::vec_to_key_command(vec!["ls".to_string()]),
        Executor::SpawnProcess(vec!["ls".to_string()])
    );
}

#[test]
fn documents_override_settings_in_order() {
    let first = map(vec![
        ("aesthetics", map(vec![("background_path", text("/first.png"))])),
        ("exhibitor", map(vec![("compositor", map(vec![("move_step", Yaml::Integer(25))]))])),
        ("keyboard", map(vec![("layout", text("pl")), ("variant", text("dvorak"))])),
    ]);
    let second = map(vec![
        ("aesthetics", map(vec![("background_path", text("/second.png"))])),
        (
            "exhibitor",
            map(vec![(
                "strategist",
                map(vec![("choose_target", text("anchored")), ("choose_floating", Yaml::Integer(3))]),
            )]),
        ),
        ("keyboard", map(vec![("layout", Yaml::Null)])),
    ]);
    let mut config = Config::default();
    config.load(&vec![first, second]);
    assert_eq!(config.get_aesthetics_config().background_path, Some("/second.png".to_string()));
    assert_eq!(config.get_exhibitor_config().compositor.move_step, 25);
    assert_eq!(config.get_exhibitor_config().strategist.choose_target, "anchored");
    assert_eq!(config.get_exhibitor_config().strategist.choose_floating, "random");
    assert_eq!(config.get_keyboard_config().layout, "pl");
    assert_eq!(config.get_keyboard_config().variant, "dvorak");
}

#[test]
fn loading_nothing_keeps_settings() {
    let mut config = Config::default();
    config.load(&vec![]);
    config.load(&vec![Yaml::Null, text("not a mapping")]);
    assert_eq!(config.get_exhibitor_config().compositor.move_step, 10);
    assert_eq!(config.get_keyboard_config().layout, "us");
    assert_eq!(config.get_keybindings_config().insert.len(), 46);
}

#[test]
fn move_step_is_truncated_to_32_bits() {
    let document = map(vec![(
        "exhibitor",
        map(vec![("compositor", map(vec![("move_step", Yaml::Integer(-1))]))]),
    )]);
    let mut config = Config::default();
    config.load(&vec![document]);
    assert_eq!(config.get_exhibitor_config().compositor.move_step, u32::MAX);
}

#[test]
fn insert_bindings_are_appended_until_a_broken_entry() {
    let bindings = Yaml::Array(vec![
        map(vec![
            ("key", text("T")),
            ("mods", Yaml::Array(vec![text("lmeta"), text("LShift"), Yaml::Integer(1), text("lctl")])),
            ("execute", Yaml::Array(vec![text("weston-terminal"), Yaml::Null, text("x")])),
        ]),
        map(vec![("key", text("H")), ("mods", Yaml::Array(vec![])), ("action", text("exalt"))]),
        map(vec![("key", text("end")), ("action", text("ramify"))]),
        map(vec![("key", text("a")), ("mods", Yaml::Array(vec![])), ("action", text("nop"))]),
    ]);
    let document = map(vec![("keybindings", map(vec![("insert", bindings)]))]);
    let mut config = Config::default();
    config.load(&vec![document]);
    let insert = &config.get_keybindings_config().insert;
    assert_eq!(insert.len(), 48);
    assert_eq!(insert[46].executor, Executor::SpawnProcess(vec!["weston-terminal".to_string()]));
    assert_eq!(
        insert[46].binding,
        perceptia::input_manager::Binding::new(keys::KEY_T, modifier::LMTA | modifier::LSHF)
    );
    assert_eq!(insert[47].executor, Executor::Exalt);
    assert_eq!(
        insert[47].binding,
        perceptia::input_manager::Binding::new(keys::KEY_H, modifier::NONE)
    );
}

#[test]
fn keybindings_default_has_the_documented_modes() {
    let bindings = KeybindingsConfig::default();
    assert_eq!(bindings.insert[0].executor, Executor::SwapModeInsertToNormal);
    assert_eq!(bindings.normal[0].executor, Executor::CleanCommand);
}

#[test]
fn loading_in_parts_is_loading_at_once() {
    let documents = || {
        vec![
            map(vec![("keyboard", map(vec![("layout", text("de"))]))]),
            map(vec![
                ("keyboard", map(vec![("variant", text("neo"))])),
                (
                    "keybindings",
                    map(vec![(
                        "insert",
                        Yaml::Array(vec![map(vec![
                            ("key", text("q")),
                            ("mods", Yaml::Array(vec![text("lalt")])),
                            ("action", text("quit")),
                        ])]),
                    )]),
                ),
            ]),
        ]
    };
    let mut at_once = Config::default();
    at_once.load(&documents());
    let mut in_parts = Config::default();
    let mut parts = documents();
    let second = parts.pop().unwrap();
    in_parts.load(&parts);
    in_parts.load(&vec![second]);
    assert_eq!(at_once.get_keyboard_config().layout, in_parts.get_keyboard_config().layout);
    assert_eq!(at_once.get_keyboard_config().variant, in_parts.get_keyboard_config().variant);
    assert_eq!(at_once.get_keyboard_config().variant, "neo");
    let a = &at_once.get_keybindings_config().insert;
    let b = &in_parts.get_keybindings_config().insert;
    assert_eq!(a.len(), b.len());
    assert_eq!(a[a.len() - 1].executor, Executor::Quit);
    assert_eq!(b[b.len() - 1].binding, a[a.len() - 1].binding);
}

#[test]
fn parsed_files_are_loaded_and_parse_errors_keep_settings() {
    let mut config = Config::default();
    let document = map(vec![("keyboard", map(vec![("layout", text("de"))]))]);
    assert_eq!(config.load_parsed(Ok(vec![document])), Ok(()));
    assert_eq!(config.get_keyboard_config().layout, "de");
    let error = "mapping values are not allowed in this context at line 1 column 3".to_string();
    assert_eq!(config.load_parsed(Err(error.clone())), Err(error));
    assert_eq!(config.get_keyboard_config().layout, "de");
    assert_eq!(config.get_exhibitor_config().compositor.move_step, 10);
}

#[test]
fn configuration_text_is_parsed_and_loaded() {
    let mut config = Config::default();
    let text = "keyboard:\n  layout: fr\nexhibitor:\n  compositor:\n    move_step: 30\n---\nkeyboard:\n  variant: azerty\n";
    assert_eq!(config.load_text(text), Ok(()));
    assert_eq!(config.get_keyboard_config().layout, "fr");
    assert_eq!(config.get_keyboard_config().variant, "azerty");
    assert_eq!(config.get_exhibitor_config().compositor.move_step, 30);
    let broken = "keyboard: [fr\n";
    let result = config.load_text(broken);
    assert!(result.is_err());
    assert_eq!(result, parse_yaml(broken).map(|_| ()));
    assert_eq!(config.get_keyboard_config().layout, "fr");
}

#[test]
fn yaml_text_becomes_documents_of_nodes() {
    let documents = parse_yaml("a: 1\nb: [x, 2.5, true, ~]\n---\nplain\n").expect("text parses");
    assert_eq!(documents.len(), 2);
    match &documents[0] {
        Yaml::Hash(entries) => {
            assert_eq!(entries.len(), 2);
            assert!(matches!(&entries[0], (Yaml::String(k), Yaml::Integer(1)) if k == "a"));
            match &entries[1] {
                (Yaml::String(k), Yaml::Array(items)) => {
                    assert_eq!(k, "b");
                    assert!(matches!(&items[0], Yaml::String(s) if s == "x"));
                    assert!(matches!(&items[1], Yaml::Real(s) if s == "2.5"));
                    assert!(matches!(items[2], Yaml::Boolean(true)));
                    assert!(matches!(items[3], Yaml::Null));
                }
                other => panic!("unexpected {:?}", other),
            }
        }
        other => panic!("unexpected {:?}", other),
    }
    assert!(matches!(&documents[1], Yaml::String(s) if s == "plain"));
    assert!(parse_yaml("").expect("empty text parses").is_empty());
}
