use cardamom_loader::plugins::{is_plugin_file, plugin_loader, select_plugins, PluginDir, PluginDirUnreadable};

#[test]
fn dll_extension_in_any_case() {
    for name in ["a.dll", "A.DLL", "mod.Dll", "x.y.dLl", "..dll", "plugin v2.DLL"] {
        assert!(is_plugin_file(name), "{}", name);
    }
}

#[test]
fn other_names_are_not_plugins() {
    for name in ["", ".", "..", ".dll", "dll", "a.dl", "a.dlls", "a.dll.bak", "a.", "a.exe", "adll", "a.dlł", "a.ＤLL"] {
        assert!(!is_plugin_file(name), "{}", name);
    }
}

#[test]
fn selection_keeps_listing_order() {
    let names: Vec<String> = ["b.dll", "readme.txt", "A.DLL", ".dll", "c.Dll"]
        .iter()
        .map(|s| s.to_string())
        .collect();
    assert_eq!(select_plugins(&names), vec![0, 2, 4]);
    assert_eq!(select_plugins(&Vec::new()), Vec::<usize>::new());
}

#[test]
fn loader_on_missing_unreadable_and_listed_folders() {
    assert_eq!(plugin_loader(&PluginDir::Missing).unwrap(), Vec::<usize>::new());
    match plugin_loader(&PluginDir::Unreadable("access denied".to_string())) {
        Err(PluginDirUnreadable(why)) => assert_eq!(why, "access denied"),
        other => panic!("unexpected {:?}", other),
    }
    let listed = PluginDir::Listed(vec!["x.txt".to_string(), "y.dll".to_string()]);
    assert_eq!(plugin_loader(&listed).unwrap(), vec![1]);
}
