use menu_shell::menu::{app_display_name, app_submenu, build_menu_bar, file_submenu, MenuEntry};

fn text(id: &str, label: &str) -> MenuEntry {
    MenuEntry::Text { id: id.to_string(), label: label.to_string() }
}

#[test]
fn menu_bar_has_app_then_file_submenu() {
    let bar = build_menu_bar(&Some("Notes".to_string()));
    assert_eq!(bar.submenus.len(), 2);
    assert_eq!(bar.submenus[0].label, "Notes");
    assert_eq!(bar.submenus[1].label, "File");
}

#[test]
fn app_submenu_holds_about_then_quit() {
    let bar = build_menu_bar(&Some("Notes".to_string()));
    assert_eq!(bar.submenus[0].entries, vec![text("app_about", "About"), MenuEntry::Quit]);
}

#[test]
fn file_submenu_holds_open_file_alone() {
    let bar = build_menu_bar(&None);
    assert_eq!(bar.submenus[1].entries, vec![text("file_open", "Open File")]);
}

#[test]
fn unset_product_name_falls_back_to_app() {
    assert_eq!(app_display_name(&None), "App");
    let bar = build_menu_bar(&None);
    assert_eq!(bar.submenus[0].label, "App");
}

#[test]
fn configured_product_name_is_kept() {
    assert_eq!(app_display_name(&Some("Viewer".to_string())), "Viewer");
}

#[test]
fn empty_product_name_is_kept_as_is() {
    assert_eq!(app_display_name(&Some(String::new())), "");
    let bar = build_menu_bar(&Some(String::new()));
    assert_eq!(bar.submenus[0].label, "");
}

#[test]
fn submenu_builders_match_menu_bar() {
    let bar = build_menu_bar(&Some("Notes".to_string()));
    assert_eq!(bar.submenus[0], app_submenu("Notes".to_string()));
    assert_eq!(bar.submenus[1], file_submenu());
}

#[test]
fn menu_bar_identifiers_are_distinct() {
    let bar = build_menu_bar(&None);
    let mut ids: Vec<String> = Vec::new();
    for sub in &bar.submenus {
        for e in &sub.entries {
            if let MenuEntry::Text { id, .. } = e {
                assert!(!ids.contains(id));
                ids.push(id.clone());
            }
        }
    }
    assert_eq!(ids, vec!["app_about".to_string(), "file_open".to_string()]);
}
