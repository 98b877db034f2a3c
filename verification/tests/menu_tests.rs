use twingate_tray::builder::build_menu;
use twingate_tray::menu::{MenuNode, MenuSpec, SubNode, Submenu};
use twingate_tray::model::{check_snapshot_wf, Alias, Network, Resource, User};

fn user() -> User {
    User {
        avatar_url: String::from("https://example.test/a.png"),
        email: String::from("person@example.test"),
        first_name: String::from("Pat"),
        id: String::from("u1"),
        is_admin: false,
        last_name: String::from("Smith"),
    }
}

fn resource(id: &str, name: &str, visible: bool, auth_expires_at: i64) -> Resource {
    Resource {
        address: format!("{}.example.test", id),
        admin_url: String::from("https://admin.example.test"),
        aliases: None,
        auth_expires_at,
        auth_flow_id: String::from("flow"),
        can_open_in_browser: true,
        id: String::from(id),
        is_visible_in_client: visible,
        name: String::from(name),
        open_url: format!("https://{}.example.test", id),
        resource_type: String::from("network"),
    }
}

fn network(resources: Vec<Resource>) -> Network {
    Network {
        admin_url: String::from("https://admin.example.test"),
        resources,
        user: user(),
    }
}

fn entry_label(node: &MenuNode) -> &str {
    match node {
        MenuNode::Entry(e) => e.label.as_str(),
        _ => panic!("expected an entry"),
    }
}

fn submenu(node: &MenuNode) -> &Submenu {
    match node {
        MenuNode::Submenu(s) => s,
        _ => panic!("expected a submenu"),
    }
}

fn sub_labels(s: &Submenu) -> Vec<String> {
    s.nodes
        .iter()
        .map(|n| match n {
            SubNode::Entry(e) => e.label.clone(),
            SubNode::Separator => String::from("---"),
        })
        .collect()
}

#[test]
fn build_is_deterministic() {
    let n = network(vec![
        resource("a", "Alpha", true, 0),
        resource("b", "Beta", false, 432000000),
    ]);
    let m1: MenuSpec = build_menu(&n);
    let m2: MenuSpec = build_menu(&n);
    assert_eq!(m1, m2);
}

#[test]
fn top_level_layout() {
    let n = network(vec![
        resource("a", "Alpha", true, 0),
        resource("b", "Beta", false, 432000000),
        resource("c", "Gamma", true, 172800000),
    ]);
    let m = build_menu(&n);
    // user line, stop, quit, separator, visible count, 2 visible submenus,
    // separator, background count, 1 background submenu
    assert_eq!(m.nodes.len(), 10);
    assert_eq!(entry_label(&m.nodes[0]), "person@example.test");
    assert_eq!(entry_label(&m.nodes[1]), "Stop Twingate Service");
    assert_eq!(entry_label(&m.nodes[2]), "Close Tray");
    assert!(matches!(m.nodes[3], MenuNode::Separator));
    assert_eq!(entry_label(&m.nodes[4]), "2 Resources");
    assert_eq!(submenu(&m.nodes[5]).label, "Alpha");
    assert_eq!(submenu(&m.nodes[6]).label, "Gamma");
    assert!(matches!(m.nodes[7], MenuNode::Separator));
    assert_eq!(entry_label(&m.nodes[8]), "1 Background Resources");
    assert_eq!(submenu(&m.nodes[9]).label, "Beta");
}

#[test]
fn partition_preserves_snapshot_order() {
    let n = network(vec![
        resource("r1", "One", false, 1000),
        resource("r2", "Two", true, 1000),
        resource("r3", "Three", true, 1000),
        resource("r4", "Four", false, 1000),
        resource("r5", "Five", true, 1000),
    ]);
    let m = build_menu(&n);
    // every resource appears in exactly one group, order kept
    assert_eq!(submenu(&m.nodes[5]).label, "Two");
    assert_eq!(submenu(&m.nodes[6]).label, "Three");
    assert_eq!(submenu(&m.nodes[7]).label, "Five");
    assert_eq!(submenu(&m.nodes[10]).label, "One");
    assert_eq!(submenu(&m.nodes[11]).label, "Four");
    assert_eq!(m.nodes.len(), 12);
}

#[test]
fn auth_required_pair_when_expiry_is_zero() {
    let n = network(vec![resource("a", "Alpha", true, 0)]);
    let m = build_menu(&n);
    let s = submenu(&m.nodes[5]);
    let labels = sub_labels(s);
    assert_eq!(
        labels,
        vec!["a.example.test", "Copy Address", "---", "Authentication Required", "Authenticate..."]
    );
    match &s.nodes[4] {
        SubNode::Entry(e) => assert_eq!(e.id, "authenticate-a"),
        _ => panic!("expected the authenticate action"),
    }
}

#[test]
fn expiry_label_two_days() {
    let n = network(vec![resource("a", "Alpha", true, 172800000)]);
    let m = build_menu(&n);
    let labels = sub_labels(submenu(&m.nodes[5]));
    assert_eq!(labels[3], "auth expires in 2 days");
}

#[test]
fn expiry_label_floors_partial_days() {
    // 90000000 ms is 1.04 days: floor semantics, label not pluralized away
    let n = network(vec![resource("a", "Alpha", true, 90000000)]);
    let m = build_menu(&n);
    let labels = sub_labels(submenu(&m.nodes[5]));
    assert_eq!(labels[3], "auth expires in 1 days");
}

#[test]
fn end_to_end_scenario() {
    // one visible resource that needs authentication, one background
    // resource whose authentication runs out five days of milliseconds ahead
    let n = network(vec![
        resource("a", "Alpha", true, 0),
        resource("b", "Beta", false, 5 * 86400000),
    ]);
    let m = build_menu(&n);
    assert_eq!(entry_label(&m.nodes[4]), "1 Resources");
    let vis = submenu(&m.nodes[5]);
    assert_eq!(vis.label, "Alpha");
    let vis_labels = sub_labels(vis);
    assert!(vis_labels.contains(&String::from("Authentication Required")));
    assert!(vis_labels.contains(&String::from("Authenticate...")));
    assert_eq!(entry_label(&m.nodes[7]), "1 Background Resources");
    let bg = submenu(&m.nodes[8]);
    assert_eq!(bg.label, "Beta");
    assert_eq!(sub_labels(bg)[3], "auth expires in 5 days");
}

#[test]
fn item_ids_embed_resource_id() {
    let n = network(vec![resource("res-7", "Seven", true, 0)]);
    let m = build_menu(&n);
    let s = submenu(&m.nodes[5]);
    match &s.nodes[0] {
        SubNode::Entry(e) => assert_eq!(e.id, "resource_address-res-7"),
        _ => panic!("expected the address line"),
    }
    match &s.nodes[1] {
        SubNode::Entry(e) => assert_eq!(e.id, "copy_address-res-7"),
        _ => panic!("expected the copy action"),
    }
}

#[test]
fn aliases_and_capability_ride_through_untouched() {
    // the minimal menu does not render aliases, but the model keeps them,
    // and the capability flag, exactly as fetched
    let mut r = resource("a", "Alpha", true, 0);
    r.aliases = Some(vec![Alias {
        address: String::from("alt.example.test"),
        open_url: String::from("https://alt.example.test"),
    }]);
    r.can_open_in_browser = false;
    let copy = r.clone();
    let n = network(vec![r]);
    let _ = build_menu(&n);
    assert_eq!(n.resources[0], copy);
    assert_eq!(
        n.resources[0].aliases.as_ref().unwrap()[0].address,
        "alt.example.test"
    );
    assert!(!n.resources[0].can_open_in_browser);
}

#[test]
fn snapshot_wf_rejects_negative_expiry() {
    let good = network(vec![resource("a", "Alpha", true, 0)]);
    assert!(check_snapshot_wf(&good));
    let bad = network(vec![resource("a", "Alpha", true, -5)]);
    assert!(!check_snapshot_wf(&bad));
}
