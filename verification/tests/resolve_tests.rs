use sway_scratchpad::desktop::{DesktopEntry, DesktopIndex};
use sway_scratchpad::node::{
    node_get_class, node_get_instance, node_get_role, node_get_title, WindowNode,
    WindowProperties,
};
use sway_scratchpad::resolve::{
    activation_target, build_rows, candidate_names, get_desktop_file_from_node, resolve_node,
    show_command, IconSource, ListRow,
};

fn entry(id: &str, display_name: &str, keywords: &[&str], icon: Option<&str>) -> DesktopEntry {
    DesktopEntry {
        id: id.to_string(),
        display_name: display_name.to_string(),
        keywords: keywords.iter().map(|k| k.to_string()).collect(),
        icon: icon.map(|s| s.to_string()),
    }
}

fn node(
    id: i64,
    app_id: Option<&str>,
    class: Option<&str>,
    instance: Option<&str>,
    title: Option<&str>,
    role: Option<&str>,
    name: Option<&str>,
) -> WindowNode {
    WindowNode {
        id,
        pid: Some(1),
        app_id: app_id.map(|s| s.to_string()),
        window_properties: Some(WindowProperties {
            class: class.map(|s| s.to_string()),
            instance: instance.map(|s| s.to_string()),
            title: title.map(|s| s.to_string()),
            window_role: role.map(|s| s.to_string()),
        }),
        name: name.map(|s| s.to_string()),
    }
}

#[test]
fn exact_pass_finds_firefox_by_app_id() {
    let index = DesktopIndex {
        entries: vec![
            entry("gedit.desktop", "Text Editor", &[], Some("gedit")),
            entry("firefox.desktop", "Firefox", &["Browser"], Some("firefox")),
        ],
    };
    let bn = Some("some-binary".to_string());
    // independent of class and instance values
    for (class, instance) in [
        (None, None),
        (Some("Navigator"), Some("navigator")),
        (Some("zzz"), Some("qqq")),
    ] {
        let n = node(7, Some("firefox"), class, instance, None, None, None);
        assert_eq!(get_desktop_file_from_node(&index, &n, &bn), Some(1));
    }
}

#[test]
fn exact_pass_respects_candidate_order() {
    // both the app_id and the class have exact entries: the app_id wins
    let index = DesktopIndex {
        entries: vec![
            entry("navigator.desktop", "Navigator Shell", &[], None),
            entry("firefox.desktop", "Firefox", &[], None),
        ],
    };
    let bn = Some("bin".to_string());
    let n = node(1, Some("firefox"), Some("navigator"), None, None, None, None);
    assert_eq!(get_desktop_file_from_node(&index, &n, &bn), Some(1));
    // without the app_id, the class candidate is next
    let n = node(1, None, Some("navigator"), None, None, None, None);
    assert_eq!(get_desktop_file_from_node(&index, &n, &bn), Some(0));
}

#[test]
fn missing_basename_short_circuits_to_no_match() {
    let index = DesktopIndex {
        entries: vec![entry("firefox.desktop", "Firefox", &[], Some("firefox"))],
    };
    let n = node(3, Some("firefox"), None, None, None, None, None);
    assert_eq!(get_desktop_file_from_node(&index, &n, &None), None);
    let r = resolve_node(&index, &n, &None);
    assert!(matches!(r.icon_source, IconSource::NamedFallback(ref s) if s == "image-missing"));
}

#[test]
fn fuzzy_pass_matches_by_role_keyword() {
    // no exact name match: the id has a vendor prefix; but the query occurs
    // in the id, the role is "browser" and the keywords hold "Browser"
    let index = DesktopIndex {
        entries: vec![
            entry("org.gnome.gedit.desktop", "Text Editor", &["Text"], None),
            entry(
                "org.mozilla.firefox.desktop",
                "Firefox Web Browser",
                &["Internet", "Browser"],
                Some("firefox"),
            ),
        ],
    };
    let bn = Some("firefox-bin".to_string());
    let n = node(9, Some("firefox"), None, None, None, Some("browser"), None);
    assert_eq!(get_desktop_file_from_node(&index, &n, &bn), Some(1));
}

#[test]
fn fuzzy_pass_without_role_takes_first_search_hit() {
    // an absent role filters nothing
    let index = DesktopIndex {
        entries: vec![entry("org.mozilla.firefox.desktop", "Firefox", &[], None)],
    };
    let bn = Some("bin".to_string());
    let n = node(2, Some("firefox"), None, None, None, None, None);
    assert_eq!(get_desktop_file_from_node(&index, &n, &bn), Some(0));
    // an empty role string filters nothing either
    let n = node(2, Some("firefox"), None, None, None, Some(""), None);
    assert_eq!(get_desktop_file_from_node(&index, &n, &bn), Some(0));
}

#[test]
fn fuzzy_pass_role_filter_rejects() {
    // the search would hit, but the role matches no keyword list
    let index = DesktopIndex {
        entries: vec![entry(
            "org.mozilla.firefox.desktop",
            "Firefox",
            &["Internet", "Browser"],
            Some("firefox"),
        )],
    };
    let bn = Some("bin".to_string());
    let n = node(4, Some("firefox"), None, None, None, Some("editor"), None);
    assert_eq!(get_desktop_file_from_node(&index, &n, &bn), None);
    let r = resolve_node(&index, &n, &bn);
    assert!(matches!(r.icon_source, IconSource::NamedFallback(ref s) if s == "image-missing"));
    // and the listing still carries one row for the node
    let rows = build_rows(&index, &vec![n], &vec![bn]);
    assert_eq!(rows.len(), 1);
    assert!(matches!(rows[0], ListRow::Member { node_id: 4, .. }));
}

#[test]
fn role_keyword_match_is_case_insensitive() {
    let index = DesktopIndex {
        entries: vec![entry(
            "org.mozilla.firefox.desktop",
            "Firefox",
            &["BROWSER"],
            None,
        )],
    };
    let bn = Some("bin".to_string());
    let n = node(5, Some("Firefox"), None, None, None, Some("bRoWsEr"), None);
    assert_eq!(get_desktop_file_from_node(&index, &n, &bn), Some(0));
}

#[test]
fn role_is_searched_in_joined_keyword_list() {
    // the keyword list is joined with `;` before the role is searched in it
    let index = DesktopIndex {
        entries: vec![entry("org.x.term.desktop", "Terminal", &["shell", "prompt"], None)],
    };
    let bn = Some("bin".to_string());
    let n = node(6, Some("term"), None, None, None, Some("shell;prompt"), None);
    assert_eq!(get_desktop_file_from_node(&index, &n, &bn), Some(0));
}

#[test]
fn search_returns_matches_in_index_order() {
    let index = DesktopIndex {
        entries: vec![
            entry("org.mozilla.firefox.desktop", "Firefox", &[], None),
            entry("gedit.desktop", "Text Editor", &[], None),
            entry("firefox-esr.desktop", "Firefox ESR", &[], None),
            entry("chromium.desktop", "Web Browser", &[], None),
        ],
    };
    let query: Vec<char> = "FIREFOX".chars().collect();
    assert_eq!(index.search(&query), vec![0, 2]);
    let query: Vec<char> = "nothing-like-this".chars().collect();
    assert_eq!(index.search(&query), Vec::<usize>::new());
}

#[test]
fn label_prefers_title() {
    let index = DesktopIndex { entries: vec![] };
    let n = node(8, None, None, None, Some("My Title"), None, Some("raw name"));
    let r = resolve_node(&index, &n, &None);
    assert_eq!(r.label, "My Title");
}

#[test]
fn label_falls_back_to_name() {
    let index = DesktopIndex { entries: vec![] };
    let n = node(8, None, None, None, None, None, Some("raw name"));
    let r = resolve_node(&index, &n, &None);
    assert_eq!(r.label, "raw name");
}

#[test]
fn label_synthesizes_window_id() {
    let index = DesktopIndex { entries: vec![] };
    let n = node(42, None, None, None, None, None, None);
    let r = resolve_node(&index, &n, &None);
    assert_eq!(r.label, "Window ID: 42");
    let n = node(0, None, None, None, None, None, None);
    let r = resolve_node(&index, &n, &None);
    assert_eq!(r.label, "Window ID: 0");
    let n = node(-17, None, None, None, None, None, None);
    let r = resolve_node(&index, &n, &None);
    assert_eq!(r.label, "Window ID: -17");
}

#[test]
fn label_prefixes_differing_display_name() {
    let index = DesktopIndex {
        entries: vec![entry("firefox.desktop", "Firefox", &[], Some("firefox"))],
    };
    let bn = Some("bin".to_string());
    let n = node(1, Some("firefox"), None, None, Some("Rust - docs"), None, None);
    let r = resolve_node(&index, &n, &bn);
    assert_eq!(r.label, "Firefox - Rust - docs");
    assert!(matches!(r.icon_source, IconSource::FromDesktopEntry(0)));
}

#[test]
fn label_skips_prefix_when_names_agree_case_insensitively() {
    let index = DesktopIndex {
        entries: vec![entry("firefox.desktop", "FIREFOX", &[], Some("firefox"))],
    };
    let bn = Some("bin".to_string());
    let n = node(1, Some("firefox"), None, None, Some("firefox"), None, None);
    let r = resolve_node(&index, &n, &bn);
    assert_eq!(r.label, "firefox");
}

#[test]
fn label_skips_blank_display_name() {
    let index = DesktopIndex {
        entries: vec![entry("firefox.desktop", "   ", &[], Some("firefox"))],
    };
    let bn = Some("bin".to_string());
    let n = node(1, Some("firefox"), None, None, Some("A Title"), None, None);
    let r = resolve_node(&index, &n, &bn);
    assert_eq!(r.label, "A Title");
    assert!(matches!(r.icon_source, IconSource::FromDesktopEntry(0)));
}

#[test]
fn matched_entry_without_icon_falls_back() {
    let index = DesktopIndex {
        entries: vec![entry("firefox.desktop", "Firefox", &[], None)],
    };
    let bn = Some("bin".to_string());
    let n = node(1, Some("firefox"), None, None, Some("t"), None, None);
    let r = resolve_node(&index, &n, &bn);
    // the display name still prefixes the label, but the icon degrades
    assert_eq!(r.label, "Firefox - t");
    assert!(matches!(r.icon_source, IconSource::NamedFallback(ref s) if s == "image-missing"));
}

#[test]
fn empty_member_list_renders_single_placeholder_row() {
    let index = DesktopIndex { entries: vec![] };
    let rows = build_rows(&index, &vec![], &vec![]);
    assert_eq!(rows.len(), 1);
    assert!(matches!(rows[0], ListRow::Placeholder));
}

#[test]
fn one_row_per_member() {
    let index = DesktopIndex {
        entries: vec![entry("firefox.desktop", "Firefox", &[], Some("firefox"))],
    };
    let nodes = vec![
        node(1, Some("firefox"), None, None, Some("a"), None, None),
        node(2, None, None, None, None, None, None),
        node(3, Some("nothing"), None, None, Some("c"), None, None),
    ];
    let bns = vec![Some("bin".to_string()), None, None];
    let rows = build_rows(&index, &nodes, &bns);
    assert_eq!(rows.len(), 3);
    match &rows[0] {
        ListRow::Member { node_id, entity } => {
            assert_eq!(*node_id, 1);
            assert_eq!(entity.label, "Firefox - a");
        }
        ListRow::Placeholder => panic!("expected a member row"),
    }
    match &rows[1] {
        ListRow::Member { node_id, entity } => {
            assert_eq!(*node_id, 2);
            assert_eq!(entity.label, "Window ID: 2");
        }
        ListRow::Placeholder => panic!("expected a member row"),
    }
    match &rows[2] {
        ListRow::Member { node_id, entity } => {
            assert_eq!(*node_id, 3);
            assert_eq!(entity.label, "c");
        }
        ListRow::Placeholder => panic!("expected a member row"),
    }
}

#[test]
fn activation_targets() {
    let index = DesktopIndex { entries: vec![] };
    let nodes = vec![node(11, None, None, None, Some("a"), None, None)];
    let rows = build_rows(&index, &nodes, &vec![None]);
    assert_eq!(activation_target(&rows, 0), Some(11));
    assert_eq!(activation_target(&rows, 1), None);
    let empty_rows = build_rows(&index, &vec![], &vec![]);
    assert_eq!(activation_target(&empty_rows, 0), None);
}

#[test]
fn show_command_format() {
    assert_eq!(show_command(5), "[con_id=5] scratchpad show");
    assert_eq!(show_command(1234567), "[con_id=1234567] scratchpad show");
}

#[test]
fn candidate_order_is_the_authority_ranking() {
    let n = node(1, Some("a"), Some("b"), Some("d"), None, None, None);
    let cands = candidate_names(&n, &Some("c".to_string()));
    assert_eq!(
        cands,
        vec![
            Some("a".to_string()),
            Some("b".to_string()),
            Some("c".to_string()),
            Some("d".to_string())
        ]
    );
}

#[test]
fn node_getters() {
    let n = node(1, None, Some("cls"), Some("inst"), Some("ttl"), Some("rl"), Some("nm"));
    assert_eq!(node_get_class(&n), Some("cls".to_string()));
    assert_eq!(node_get_instance(&n), Some("inst".to_string()));
    assert_eq!(node_get_role(&n), Some("rl".to_string()));
    assert_eq!(node_get_title(&n), Some("ttl".to_string()));

    // no title: the raw name stands in
    let n = node(1, None, None, None, None, None, Some("nm"));
    assert_eq!(node_get_title(&n), Some("nm".to_string()));

    // no properties at all
    let bare = WindowNode {
        id: 1,
        pid: None,
        app_id: None,
        window_properties: None,
        name: Some("nm".to_string()),
    };
    assert_eq!(node_get_class(&bare), None);
    assert_eq!(node_get_instance(&bare), None);
    assert_eq!(node_get_role(&bare), None);
    assert_eq!(node_get_title(&bare), Some("nm".to_string()));
}
