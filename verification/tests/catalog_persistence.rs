use voice_gateway::api::{default_container, default_language, should_skip_container, Audio};
use voice_gateway::persistence::{PersistReason, PersistRequest};
use voice_gateway::qu::{
    count_children, find_in_tree, find_item, find_modifier, Descendants, DisplayAttribute, Item,
    Menus, MenusValue, Modifiers,
};
use voice_gateway::query;

fn leaf(key: &str, qid: &str) -> Item {
    node(key, qid, Vec::new())
}

fn node(key: &str, qid: &str, children: Vec<Item>) -> Item {
    Item {
        title: format!("title of {}", key),
        item_path_key: key.to_string(),
        parent_path_key: String::new(),
        display_attribute: DisplayAttribute { description: Some(format!("about {}", key)) },
        children,
        query_id: qid.to_string(),
    }
}

fn menu() -> Menus {
    Menus {
        value: Some(MenusValue {
            snapshot_id: "snap-1".to_string(),
            categories: vec![
                node("10", "q-10", vec![leaf("10-1", "q-10-1"), leaf("10-2", "q-10-2")]),
                node("20", "q-20", vec![leaf("20-1", "q-20-1")]),
            ],
        }),
        succeed: Some(true),
        errors: None,
    }
}

fn modifier_catalog() -> Modifiers {
    Modifiers {
        modifiers: vec![(
            "10-1".to_string(),
            Descendants {
                value: vec![node(
                    "10-1-5",
                    "q-10-1-5",
                    vec![node("10-1-5-7", "q-10-1-5-7", vec![leaf("10-1-5-7-9", "q-9")])],
                )],
            },
        )],
    }
}

#[test]
fn find_item_by_key_found_and_absent() {
    let m = menu();
    let found = find_item(&m, "20-1".to_string()).expect("the item exists");
    assert_eq!(found.item_path_key, "20-1");
    assert_eq!(found.title, "title of 20-1");
    assert_eq!(found.display_attribute.description.as_deref(), Some("about 20-1"));
    assert!(find_item(&m, "nope".to_string()).is_none());
    // only one category level is searched: a category's own key does not match
    assert!(find_item(&m, "10-1-5".to_string()).is_none());
}

#[test]
fn find_modifier_by_key_searches_the_whole_tree() {
    let c = modifier_catalog();
    let found = find_modifier(&c, "10-1-5-7-9".to_string()).expect("the modifier exists");
    assert_eq!(found.item_path_key, "10-1-5-7-9");
    assert!(find_modifier(&c, "10-2".to_string()).is_none());
}

#[test]
fn find_in_tree_matches_the_root_too() {
    let tree = node("r", "q-r", vec![leaf("r-1", "q-r-1")]);
    let found = find_in_tree(&tree, &"r".to_string()).expect("the root matches");
    assert_eq!(found.item_path_key, "r");
    assert!(find_in_tree(&tree, &"r-2".to_string()).is_none());
}

#[test]
fn count_children_excludes_the_root() {
    let tree = node(
        "r",
        "q-r",
        vec![node("a", "q-a", vec![leaf("a-1", "q-a-1")]), leaf("b", "q-b")],
    );
    assert_eq!(count_children(tree), 3);
    assert_eq!(count_children(leaf("solo", "q-solo")), 0);
}

#[test]
fn find_item_by_query_id() {
    let m = menu();
    let found = query::find_item(&m, Some("q-10-2".to_string())).expect("indexed item exists");
    assert_eq!(found.item_path_key, "10-2");
    assert!(query::find_item(&m, Some("q-none".to_string())).is_none());
    assert!(query::find_item(&m, None).is_none());
}

#[test]
fn find_modifier_by_query_id() {
    let c = modifier_catalog();
    let found = query::find_modifier(&c, Some("q-9".to_string())).expect("indexed node exists");
    assert_eq!(found.item_path_key, "10-1-5-7-9");
    assert!(query::find_modifier(&c, Some("q-10-2".to_string())).is_none());
    assert!(query::find_modifier(&c, None).is_none());
}

#[test]
fn resolve_menu_results_keeps_rank_order_and_drops_unresolvable() {
    let m = menu();
    let ids = vec![
        Some("q-20-1".to_string()),
        None,
        Some("q-unknown".to_string()),
        Some("q-10-1".to_string()),
    ];
    let items = query::resolve_menu_results(&m, ids);
    assert_eq!(items.len(), 2);
    assert_eq!(items[0].item_path_key, "20-1");
    assert_eq!(items[0].title, "title of 20-1");
    assert_eq!(items[1].item_path_key, "10-1");
}

#[test]
fn resolve_modifier_results_keeps_rank_order_and_drops_unresolvable() {
    let c = modifier_catalog();
    let ids = vec![Some("q-9".to_string()), Some("q-20-1".to_string()), Some("q-10-1-5".to_string())];
    let items = query::resolve_modifier_results(&c, ids);
    assert_eq!(items.len(), 2);
    assert_eq!(items[0].item_path_key, "10-1-5-7-9");
    assert_eq!(items[1].item_path_key, "10-1-5");
}

#[test]
fn parent_path_keys_lists_every_prefix() {
    assert_eq!(
        query::parent_path_keys("47587-56635-122228"),
        vec!["47587".to_string(), "47587-56635".to_string(), "47587-56635-122228".to_string()]
    );
}

#[test]
fn parent_path_keys_edges() {
    assert_eq!(query::parent_path_keys("47587"), vec!["47587".to_string()]);
    assert_eq!(query::parent_path_keys(""), vec!["".to_string()]);
    assert_eq!(query::parent_path_keys("a-"), vec!["a".to_string(), "a-".to_string()]);
    assert_eq!(
        query::parent_path_keys("-b"),
        vec!["".to_string(), "-b".to_string()]
    );
}

#[test]
fn persist_request_file_name() {
    let req = PersistRequest {
        reason: PersistReason::Depart,
        order_id: Some("ord-7".to_string()),
        agent_session_id: Some("agent-3".to_string()),
    };
    assert!(req.should_write());
    assert_eq!(
        req.file_name("2030-01-02T03:04:05Z").as_deref(),
        Some("2030-01-02T03:04:05Z_ord-7_agent-3_depart.json")
    );
}

#[test]
fn persist_request_without_both_ids_is_not_written() {
    let missing_order = PersistRequest {
        reason: PersistReason::Escalation,
        order_id: None,
        agent_session_id: Some("agent-3".to_string()),
    };
    assert!(!missing_order.should_write());
    assert!(missing_order.file_name("T").is_none());
    let missing_agent = PersistRequest {
        reason: PersistReason::ConnectionClose,
        order_id: Some("ord-7".to_string()),
        agent_session_id: None,
    };
    assert!(!missing_agent.should_write());
    assert!(missing_agent.file_name("T").is_none());
}

#[test]
fn persist_reason_texts() {
    assert_eq!(PersistReason::Depart.text(), "depart");
    assert_eq!(PersistReason::Escalation.text(), "escalation");
    assert_eq!(PersistReason::ConnectionClose.text(), "close");
}

#[test]
fn handshake_defaults() {
    assert!(should_skip_container(&"none".to_string()));
    assert!(!should_skip_container(&"wav".to_string()));
    assert_eq!(default_container(), "none");
    assert_eq!(default_language(), "en");
    let audio = Audio::default();
    assert_eq!(audio.input.encoding, "linear16");
    assert_eq!(audio.input.sample_rate, 16000);
    assert_eq!(audio.output.container, "none");
    assert!(audio.output.bitrate.is_none());
}
