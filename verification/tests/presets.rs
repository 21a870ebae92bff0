use kick_synth::presets::{
    default_filter_env_trigger, json_file_name, user_preset_categories, PresetBrowser, PresetInfo,
    PresetOrigin,
};

fn info(name: &str, cats: &[&str]) -> PresetInfo {
    PresetInfo { name: name.to_string(), categories: cats.iter().map(|c| c.to_string()).collect() }
}

fn strings(v: &[&str]) -> Vec<String> {
    v.iter().map(|s| s.to_string()).collect()
}

fn factory() -> Vec<PresetInfo> {
    vec![
        info("A", &["Deep"]),
        info("B", &[]),
        info("C", &["Deep", "X"]),
        info("D", &["Punchy"]),
    ]
}

#[test]
fn preset_defaults() {
    assert_eq!(PresetOrigin::default(), PresetOrigin::Factory);
    assert!(default_filter_env_trigger());
}

#[test]
fn browser_starts_on_factory_first_category() {
    let b = PresetBrowser::new(factory(), vec![], vec![]);
    assert_eq!(b.bank_names(), &strings(&["Factory", "User"]));
    assert_eq!(b.selected_bank(), 0);
    assert_eq!(b.category_names(), &strings(&["Deep", "General", "Punchy"]));
    assert_eq!(b.selected_category(), 0);
    assert_eq!(b.filtered_presets(), &vec![0, 2]);
    assert_eq!(b.preset_names(), &strings(&["A", "C"]));
    assert_eq!(b.selected_preset(), 0);
    assert_eq!(b.load_selection(), Some(0));
}

#[test]
fn category_selection_filters() {
    let mut b = PresetBrowser::new(factory(), vec![], vec![]);
    b.select_category(1);
    assert_eq!(b.filtered_presets(), &vec![1]);
    assert_eq!(b.preset_names(), &strings(&["B"]));
    b.select_category(2);
    assert_eq!(b.preset_names(), &strings(&["D"]));
    // An out-of-range category lists the whole bank.
    b.select_category(7);
    assert_eq!(b.filtered_presets(), &vec![0, 1, 2, 3]);
    assert_eq!(b.preset_names(), &strings(&["A", "B", "C", "D"]));
}

#[test]
fn preset_selection_keeps_or_resets() {
    let mut b = PresetBrowser::new(factory(), vec![], vec![]);
    assert_eq!(b.select_preset(1), Some(2));
    assert_eq!(b.selected_preset(), 1);
    assert_eq!(b.select_preset(9), None);
    assert_eq!(b.selected_preset(), 9);
    assert_eq!(b.load_selection(), None);
    // Rebuilding the listing brings an out-of-range selection back to 0.
    b.select_category(0);
    assert_eq!(b.selected_preset(), 0);
    b.select_preset(1);
    b.select_category(7);
    assert_eq!(b.selected_preset(), 1);
    assert_eq!(b.load_selection(), Some(1));
}

#[test]
fn user_bank_lists_folders_first() {
    let user = vec![info("U1", &["Deep"]), info("U2", &[])];
    let mut b = PresetBrowser::new(factory(), user, vec![]);
    b.select_preset(9);
    b.select_bank(1, strings(&["Zeta", "Deep", "Zeta"]));
    assert_eq!(b.selected_bank(), 1);
    assert_eq!(b.category_names(), &strings(&["Zeta", "Deep", "General"]));
    assert_eq!(b.selected_category(), 0);
    // No preset is filed under "Zeta": the whole bank is listed.
    assert_eq!(b.filtered_presets(), &vec![0, 1]);
    assert_eq!(b.preset_names(), &strings(&["U1", "U2"]));
    assert_eq!(b.selected_preset(), 0);
    b.select_category(1);
    assert_eq!(b.preset_names(), &strings(&["U1"]));
}

#[test]
fn empty_and_unknown_banks() {
    let mut b = PresetBrowser::new(factory(), vec![], vec![]);
    b.select_bank(1, vec![]);
    assert_eq!(b.category_names(), &strings(&["General"]));
    assert_eq!(b.filtered_presets(), &Vec::<usize>::new());
    assert_eq!(b.preset_names(), &strings(&["(no presets)"]));
    assert_eq!(b.selected_preset(), 0);
    assert_eq!(b.load_selection(), None);
    b.select_bank(5, strings(&["Zeta"]));
    assert_eq!(b.category_names(), &strings(&["General"]));
    assert_eq!(b.preset_names(), &strings(&["(no presets)"]));
    // Folders only show for the user bank.
    b.select_bank(0, strings(&["Zeta"]));
    assert_eq!(b.category_names(), &strings(&["Deep", "General", "Punchy"]));
}

#[test]
fn reload_user_bank() {
    let mut b = PresetBrowser::new(factory(), vec![], vec![]);
    b.select_bank(1, vec![]);
    b.reload_user_presets(vec![info("New", &["Fresh"])], strings(&["Fresh"]));
    assert_eq!(b.category_names(), &strings(&["Fresh"]));
    assert_eq!(b.preset_names(), &strings(&["New"]));
    // On the factory bank a reload leaves the lists alone.
    b.select_bank(0, vec![]);
    b.reload_user_presets(vec![], vec![]);
    assert_eq!(b.preset_names(), &strings(&["A", "C"]));
}

#[test]
fn reload_keeps_user_selection() {
    let mut b = PresetBrowser::new(factory(), vec![], vec![]);
    b.select_bank(1, strings(&["Deep"]));
    b.reload_user_presets(
        vec![info("K1", &["Deep"]), info("K2", &["Short"]), info("K3", &["Short"])],
        strings(&["Deep", "Short"]),
    );
    assert_eq!(b.category_names(), &strings(&["Deep", "Short"]));
    b.select_category(1);
    b.select_preset(1);
    assert_eq!(b.load_selection(), Some(2));
    // A save into "Short" adds a preset and a folder; the selections stay.
    b.reload_user_presets(
        vec![
            info("K1", &["Deep"]),
            info("K2", &["Short"]),
            info("K3", &["Short"]),
            info("K4", &["Short"]),
        ],
        strings(&["Deep", "Long", "Short"]),
    );
    assert_eq!(b.category_names(), &strings(&["Deep", "Long", "Short"]));
    assert_eq!(b.selected_category(), 1);
    assert_eq!(b.preset_names(), &strings(&["K1", "K2", "K3", "K4"]));
    assert_eq!(b.selected_preset(), 1);
    // Fewer categories than the selection: back to the first.
    b.select_category(2);
    b.select_preset(2);
    b.reload_user_presets(vec![info("K1", &["Deep"])], strings(&["Deep"]));
    assert_eq!(b.selected_category(), 0);
    assert_eq!(b.preset_names(), &strings(&["K1"]));
    assert_eq!(b.selected_preset(), 0);
}

#[test]
fn save_target_sanitises() {
    let mut b = PresetBrowser::new(
        vec![info("My Kick!", &["Deep Bass"]), info("  ", &["Deep Bass"])],
        vec![],
        vec![],
    );
    assert_eq!(b.save_target(), ("Deep_Bass".to_string(), "My_Kick.json".to_string()));
    assert_eq!(b.save_categories(), strings(&["Deep Bass"]));
    b.select_preset(1);
    assert_eq!(b.save_target(), ("Deep_Bass".to_string(), "default.json".to_string()));
    b.select_preset(5);
    assert_eq!(b.save_target(), ("Deep_Bass".to_string(), "kick-synth-preset.json".to_string()));
    b.select_category(3);
    assert_eq!(b.save_target().0, "User".to_string());
    assert_eq!(b.save_categories(), Vec::<String>::new());
}

#[test]
fn json_extension() {
    assert_eq!(json_file_name("kick".to_string()), "kick.json");
    assert_eq!(json_file_name("kick.json".to_string()), "kick.json");
    assert_eq!(json_file_name("KICK.JSON".to_string()), "KICK.JSON");
    assert_eq!(json_file_name("json".to_string()), "json.json");
    assert_eq!(json_file_name(String::new()), ".json");
}

#[test]
fn user_preset_folder_category() {
    assert_eq!(user_preset_categories(vec![], Some("Deep".to_string())), strings(&["Deep"]));
    assert_eq!(user_preset_categories(vec![], None), Vec::<String>::new());
    assert_eq!(
        user_preset_categories(strings(&["Own"]), Some("Deep".to_string())),
        strings(&["Own"])
    );
}
