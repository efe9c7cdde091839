use ability::{Menu, MenuItem, MenuItemData, Submenu};

fn is_generated_id_text(prefix: &str, id: &str) -> bool {
    let Some(rest) = id.strip_prefix(prefix) else { return false };
    let chars: Vec<char> = rest.chars().collect();
    chars.len() == 36
        && chars.iter().enumerate().all(|(i, c)| {
            if [8, 13, 18, 23].contains(&i) {
                *c == '-'
            } else {
                c.is_ascii_digit() || ('a'..='f').contains(c)
            }
        })
        && chars[14] == '4'
        && ['8', '9', 'a', 'b'].contains(&chars[19])
}

fn leaf(id: &str, text: &str) -> MenuItemData {
    MenuItemData {
        id: id.to_string(),
        item_type: "item".to_string(),
        text: Some(text.to_string()),
        enabled: Some(true),
        accelerator: None,
        predefined_type: None,
        checked: None,
        icon: None,
        submenu_items: None,
    }
}

#[test]
fn test_menu_item_data_creation() {
    let data = MenuItemData {
        id: "item1".to_string(),
        item_type: "item".to_string(),
        text: Some("File".to_string()),
        enabled: Some(true),
        accelerator: Some("Ctrl+F".to_string()),
        predefined_type: None,
        checked: None,
        icon: None,
        submenu_items: None,
    };
    assert_eq!(data.id, "item1");
    assert_eq!(data.item_type, "item");
}

#[test]
fn test_submenu_nested_items() {
    let submenu_data = MenuItemData {
        id: "submenu_1".to_string(),
        item_type: "submenu".to_string(),
        text: Some("File".to_string()),
        enabled: Some(true),
        accelerator: None,
        predefined_type: None,
        checked: None,
        icon: None,
        submenu_items: Some(vec![MenuItemData {
            id: "item_1".to_string(),
            item_type: "item".to_string(),
            text: Some("Open".to_string()),
            enabled: Some(true),
            accelerator: None,
            predefined_type: None,
            checked: None,
            icon: None,
            submenu_items: None,
        }]),
    };
    assert!(submenu_data.submenu_items.is_some());
    assert_eq!(submenu_data.submenu_items.unwrap().len(), 1);
}

#[test]
fn test_menu_creation() {
    let menu = Menu::new(None);
    assert!(menu.id().starts_with("menu_"));
}

#[test]
fn test_menu_item_creation() {
    let item = MenuItem::new(None, "Test".to_string(), None, Some("Ctrl+T".to_string()));
    assert!(item.id().starts_with("item_"));
    assert_eq!(item.text(), "Test");
    assert_eq!(item.to_data().accelerator, Some("Ctrl+T".to_string()));
}

#[test]
fn generated_ids_are_prefix_and_random_uuid() {
    let menu = Menu::new(None);
    let item = MenuItem::new(None, "x".to_string(), None, None);
    let sub = Submenu::new(None, "y".to_string());
    assert!(is_generated_id_text("menu_", &menu.id()));
    assert!(is_generated_id_text("item_", &item.id()));
    assert!(is_generated_id_text("submenu_", &sub.id()));
    assert_eq!(menu.id().len(), "menu_".len() + 36);
    assert_ne!(Menu::new(None).id(), Menu::new(None).id());
}

#[test]
fn explicit_ids_are_kept() {
    assert_eq!(Menu::new(Some("main".to_string())).id(), "main");
    assert_eq!(Submenu::new(Some("edit".to_string()), "Edit".to_string()).id(), "edit");
    let item = MenuItem::new(Some("quit".to_string()), "Quit".to_string(), Some(false), None);
    assert_eq!(item.id(), "quit");
    assert!(!item.enabled());
}

#[test]
fn menu_item_defaults_and_setters() {
    let mut item = MenuItem::new(None, "Open".to_string(), None, None);
    assert!(item.enabled());
    item.set_enabled(false);
    item.set_text("Open...".to_string());
    assert!(!item.enabled());
    assert_eq!(item.text(), "Open...");
    let d = item.to_data();
    assert_eq!(d.id, item.id());
    assert_eq!(d.item_type, "item");
    assert_eq!(d.text, Some("Open...".to_string()));
    assert_eq!(d.enabled, Some(false));
    assert_eq!(d.accelerator, None);
    assert!(d.predefined_type.is_none() && d.checked.is_none() && d.icon.is_none());
    assert!(d.submenu_items.is_none());
}

#[test]
fn menu_append_items_and_to_data() {
    let mut menu = Menu::new(Some("root".to_string()));
    assert!(menu.items().is_empty());
    assert!(menu.append(leaf("a", "A")).is_ok());
    assert!(menu.append(leaf("b", "B")).is_ok());
    let items = menu.items();
    assert_eq!(items.len(), 2);
    assert_eq!(items[0].id, "a");
    assert_eq!(items[1].text, Some("B".to_string()));
    let d = menu.to_data();
    assert_eq!(d.id, "root");
    assert_eq!(d.item_type, "menu");
    assert_eq!(d.text, None);
    assert_eq!(d.enabled, Some(true));
    assert!(d.accelerator.is_none() && d.predefined_type.is_none());
    assert!(d.checked.is_none() && d.icon.is_none());
    let children = d.submenu_items.unwrap();
    assert_eq!(children.len(), 2);
    assert_eq!(children[0].id, "a");
    assert_eq!(children[1].id, "b");
}

#[test]
fn submenu_nesting_and_to_data() {
    let mut file = Submenu::new(Some("file".to_string()), "File".to_string());
    file.append(leaf("open", "Open")).unwrap();
    let mut recent = Submenu::new(Some("recent".to_string()), "Recent".to_string());
    recent.append(leaf("r1", "notes.txt")).unwrap();
    file.append(recent.to_data()).unwrap();
    file.set_text("Fichier".to_string());
    assert_eq!(file.text(), "Fichier");
    let d = file.to_data();
    assert_eq!(d.item_type, "submenu");
    assert_eq!(d.text, Some("Fichier".to_string()));
    assert_eq!(d.enabled, Some(true));
    let children = d.submenu_items.unwrap();
    assert_eq!(children.len(), 2);
    assert_eq!(children[1].item_type, "submenu");
    let grandchildren = children[1].submenu_items.clone().unwrap();
    assert_eq!(grandchildren[0].text, Some("notes.txt".to_string()));
    let mut menu = Menu::new(None);
    menu.append(file.to_data()).unwrap();
    assert_eq!(menu.items()[0].id, "file");
}

#[test]
fn item_data_clone_is_deep_and_equal() {
    let mut data = leaf("parent", "Parent");
    data.submenu_items = Some(vec![leaf("c1", "C1"), leaf("c2", "C2")]);
    data.checked = Some(true);
    data.icon = Some("icon.png".to_string());
    let copy = data.clone();
    assert_eq!(format!("{:?}", copy), format!("{:?}", data));
}
