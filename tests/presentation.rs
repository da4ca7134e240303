use fileman::crumbs::{path_to_breadcrumb_items, Crumb};
use fileman::listing::{cell_data, header_data, CellData, FileRow, ItemRole, Orientation};
use fileman::sidebar::{build_places_section, build_sections, FilemanSidebarConfig, FoundDirectory, SidebarItem, SidebarSection, UserDirectory};
use fileman::status::{navigation_status_text, StatusLine};
use fileman::text::decimal;

fn s(x: &str) -> String {
    x.to_string()
}

fn crumb(label: &str, id: &str, clickable: bool) -> Crumb {
    Crumb { label: s(label), id: s(id), clickable }
}

#[test]
fn breadcrumbs_of_absolute_path() {
    assert_eq!(
        path_to_breadcrumb_items(&s("/home/user")),
        vec![crumb("/", "/", true), crumb("home", "/home", true), crumb("user", "/home/user", false)]
    );
    assert_eq!(path_to_breadcrumb_items(&s("/")), vec![crumb("/", "/", false)]);
}

#[test]
fn breadcrumbs_of_relative_path_skip_dots() {
    assert_eq!(
        path_to_breadcrumb_items(&s("a/./b/../c")),
        vec![crumb("a", "a", true), crumb("b", "a/b", true), crumb("c", "a/b/c", false)]
    );
    assert_eq!(path_to_breadcrumb_items(&s("")), Vec::<Crumb>::new());
}

#[test]
fn decimal_text_of_numbers() {
    assert_eq!(decimal(0), "0");
    assert_eq!(decimal(7), "7");
    assert_eq!(decimal(1234), "1234");
    assert_eq!(decimal(u64::MAX), "18446744073709551615");
}

#[test]
fn status_text_counts_selection() {
    assert_eq!(navigation_status_text(&s("/home"), 0), "/home");
    assert_eq!(navigation_status_text(&s("/home"), 3), "/home - 3 item(s) selected");
}

#[test]
fn status_message_holds_for_its_window() {
    let mut line = StatusLine::new();
    assert_eq!(line.text(), "Ready");
    line.post_message(s("Deleted 2 item(s)"), 1000);
    line.tick(3000, &s(""), &s("/home"), 0);
    assert_eq!(line.text(), "Deleted 2 item(s)");
    line.tick(4000, &s(""), &s("/home"), 0);
    assert_eq!(line.text(), "Deleted 2 item(s)");
    line.tick(4001, &s(""), &s("/home"), 2);
    assert_eq!(line.text(), "/home - 2 item(s) selected");
    line.tick(5000, &s("Go back"), &s("/home"), 2);
    assert_eq!(line.text(), "Go back");
    line.post_message(s("Error: x"), 6000);
    line.post_message(s("Renamed successfully"), 6500);
    line.tick(9000, &s("Go back"), &s("/home"), 0);
    assert_eq!(line.text(), "Renamed successfully");
}

#[test]
fn listing_cells_and_headers() {
    let rows = vec![
        FileRow { name: s("notes.txt"), is_dir: false, size: 512, file_type: s("File") },
        FileRow { name: s("docs"), is_dir: true, size: 4096, file_type: s("Directory") },
        FileRow { name: s("big.iso"), is_dir: false, size: 2048, file_type: s("File") },
    ];
    assert_eq!(cell_data(&rows, 0, 0, ItemRole::Display), CellData::Text(s("notes.txt")));
    assert_eq!(cell_data(&rows, 0, 1, ItemRole::Display), CellData::Text(s("512 B")));
    assert_eq!(cell_data(&rows, 2, 1, ItemRole::Display), CellData::Text(s("2 KiB")));
    assert_eq!(cell_data(&rows, 1, 1, ItemRole::Display), CellData::Text(s("Directory")));
    assert_eq!(cell_data(&rows, 1, 2, ItemRole::Display), CellData::Text(s("Directory")));
    assert_eq!(cell_data(&rows, 1, 3, ItemRole::Display), CellData::Text(s("Unknown")));
    assert_eq!(cell_data(&rows, 1, 4, ItemRole::Display), CellData::Empty);
    assert_eq!(cell_data(&rows, 3, 0, ItemRole::Display), CellData::Empty);
    assert_eq!(cell_data(&rows, 2, 1, ItemRole::Sort), CellData::Int(2048));
    assert_eq!(cell_data(&rows, 2, 0, ItemRole::Sort), CellData::Text(s("big.iso")));
    assert_eq!(cell_data(&rows, 0, 0, ItemRole::Icon), CellData::Empty);
    assert_eq!(header_data(3, Orientation::Horizontal, ItemRole::Display), CellData::Text(s("Date Modified")));
    assert_eq!(header_data(0, Orientation::Vertical, ItemRole::Display), CellData::Empty);
}

#[test]
fn places_list_home_then_found_directories() {
    let found = vec![
        FoundDirectory { dir: UserDirectory::Documents, path: Some(s("/home/u/Documents")), icon: s("folder-documents") },
        FoundDirectory { dir: UserDirectory::Music, path: None, icon: s("folder-music") },
        FoundDirectory { dir: UserDirectory::Download, path: Some(s("/home/u/Downloads")), icon: s("folder-download") },
    ];
    let places = build_places_section(&s("/home/u"), &s("user-home"), &found);
    assert_eq!(places.title, "Places");
    let items: Vec<(String, String, String)> =
        places.items.iter().map(|i| (i.id.clone(), i.label.clone(), i.uri.clone())).collect();
    assert_eq!(
        items,
        vec![
            (s("home"), s("Home"), s("file:///home/u")),
            (s("documents"), s("Documents"), s("file:///home/u/Documents")),
            (s("download"), s("Downloads"), s("file:///home/u/Downloads")),
        ]
    );
}

#[test]
fn sections_come_in_order() {
    let custom = SidebarSection {
        title: s("Network"),
        items: vec![SidebarItem { id: s("srv"), label: s("Server"), icon: s("network"), uri: s("file:///srv") }],
    };
    let config = FilemanSidebarConfig::new().with_devices(true).with_custom_section(custom.clone());
    let places = build_places_section(&s("/root"), &s("user-home"), &Vec::new());
    let sections = build_sections(&config, &places);
    let titles: Vec<String> = sections.iter().map(|x| x.title.clone()).collect();
    assert_eq!(titles, vec![s("Places"), s("Network"), s("Devices")]);
    assert_eq!(sections[1], custom);
    let hidden = build_sections(&FilemanSidebarConfig::new().with_places(false), &places);
    assert!(hidden.is_empty());
    let defaults = FilemanSidebarConfig::default();
    assert!(defaults.show_places && !defaults.show_bookmarks && !defaults.show_devices);
    assert_eq!(defaults.user_directories.len(), 6);
    assert_eq!(defaults.user_directories[2].label(), "Downloads");
    assert_eq!(UserDirectory::PublicShare.id(), "publicshare");
}
