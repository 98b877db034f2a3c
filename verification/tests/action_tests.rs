use twingate_tray::dispatch::{
    resolve_authenticate, resolve_copy_address, status_needs_start, validate_snapshot,
    ProviderError,
};
use twingate_tray::ids::{decode_action, make_item_id, Action};
use twingate_tray::model::{Network, Resource, User};
use twingate_tray::refresh::{tick, Publisher};
use twingate_tray::strings::{after_last_dash, str_contains, str_eq};
use twingate_tray::text::fmt_u64;

fn resource(id: &str, name: &str, visible: bool, auth_expires_at: i64) -> Resource {
    Resource {
        address: format!("{}.example.test", id),
        admin_url: String::from("https://admin.example.test"),
        aliases: None,
        auth_expires_at,
        auth_flow_id: String::from("flow"),
        can_open_in_browser: false,
        id: String::from(id),
        is_visible_in_client: visible,
        name: String::from(name),
        open_url: format!("https://{}.example.test", id),
        resource_type: String::from("network"),
    }
}

fn network(resources: Vec<Resource>) -> Network {
    Network {
        admin_url: String::from("https://admin.example.test"),
        resources,
        user: User {
            avatar_url: String::new(),
            email: String::from("person@example.test"),
            first_name: String::new(),
            id: String::from("u1"),
            is_admin: true,
            last_name: String::new(),
        },
    }
}

#[test]
fn decode_fixed_identifiers() {
    assert_eq!(decode_action("quit"), Action::Quit);
    assert_eq!(decode_action("stop_service"), Action::StopService);
    assert_eq!(decode_action("user_status"), Action::Unknown);
    assert_eq!(decode_action("num_resources"), Action::Unknown);
    assert_eq!(decode_action(""), Action::Unknown);
}

#[test]
fn decode_resource_identifiers() {
    assert_eq!(
        decode_action("copy_address-abc"),
        Action::CopyAddress(String::from("abc"))
    );
    assert_eq!(
        decode_action("authenticate-abc"),
        Action::Authenticate(String::from("abc"))
    );
}

#[test]
fn identifier_round_trip() {
    let id = make_item_id("copy_address", "abc");
    assert_eq!(id, "copy_address-abc");
    assert_eq!(decode_action(&id), Action::CopyAddress(String::from("abc")));
}

#[test]
fn identifier_round_trip_with_dash_in_resource_id() {
    // a '-' inside the resource id is ambiguous: only the part after the
    // last '-' is read back — the documented boundary of the encoding
    let id = make_item_id("copy_address", "my-res");
    assert_eq!(id, "copy_address-my-res");
    assert_eq!(decode_action(&id), Action::CopyAddress(String::from("res")));
}

#[test]
fn stale_copy_click_finds_nothing() {
    let n = network(vec![resource("a", "Alpha", true, 0)]);
    // the clicked resource vanished between menu build and click
    assert_eq!(resolve_copy_address(&n, "gone"), None);
    assert_eq!(
        resolve_copy_address(&n, "a"),
        Some(String::from("a.example.test"))
    );
}

#[test]
fn authenticate_resolves_to_resource_name() {
    let n = network(vec![
        resource("a", "Alpha", true, 0),
        resource("b", "Beta", false, 1000),
    ]);
    assert_eq!(resolve_authenticate(&n, "b"), Some(String::from("Beta")));
    assert_eq!(resolve_authenticate(&n, "c"), None);
}

#[test]
fn failed_tick_keeps_previous_menu() {
    let mut p = Publisher::new();
    assert!(p.current().is_none());

    let n = network(vec![resource("a", "Alpha", true, 0)]);
    assert!(tick(&mut p, Ok(n.clone())));
    let published = p.current().cloned().expect("a menu was published");

    // tick N fails: the previous menu stays
    assert!(!tick(&mut p, Err(ProviderError::Unavailable)));
    assert_eq!(p.current().cloned().expect("still published"), published);

    // tick N + 1 proceeds normally
    let mut n2 = n.clone();
    n2.resources.push(resource("b", "Beta", false, 86400000));
    assert!(tick(&mut p, Ok(n2)));
    let after = p.current().cloned().expect("published again");
    assert_ne!(after, published);
}

#[test]
fn negative_expiry_is_rejected_as_malformed() {
    let good = network(vec![resource("a", "Alpha", true, 86400000)]);
    assert!(validate_snapshot(good).is_ok());
    let bad = network(vec![resource("a", "Alpha", true, -1)]);
    assert_eq!(validate_snapshot(bad), Err(ProviderError::MalformedOutput));
}

#[test]
fn provider_error_variants_are_distinct() {
    assert_ne!(ProviderError::Unavailable, ProviderError::MalformedOutput);
    assert_ne!(ProviderError::MalformedOutput, ProviderError::NonZeroExit);
    assert_ne!(ProviderError::Unavailable, ProviderError::NonZeroExit);
}

#[test]
fn status_line_triggers_start() {
    assert!(status_needs_start("not-running"));
    assert!(!status_needs_start("online"));
    assert!(!status_needs_start("not-running\n"));
}

#[test]
fn decimal_rendering() {
    assert_eq!(fmt_u64(0), "0");
    assert_eq!(fmt_u64(7), "7");
    assert_eq!(fmt_u64(12345), "12345");
    assert_eq!(fmt_u64(u64::MAX), "18446744073709551615");
}

#[test]
fn string_helpers() {
    assert!(str_eq("abc", "abc"));
    assert!(!str_eq("abc", "abd"));
    assert!(!str_eq("abc", "ab"));
    assert!(str_contains("copy_address-x", "copy_address"));
    assert!(!str_contains("user_status", "copy_address"));
    assert!(str_contains("x", ""));
    assert_eq!(after_last_dash("copy_address-my-res"), "res");
    assert_eq!(after_last_dash("nodash"), "nodash");
    assert_eq!(after_last_dash("ends-"), "");
}
