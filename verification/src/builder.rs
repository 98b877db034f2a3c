//! Building the menu model from a snapshot: a pure, deterministic
//! transformation. Resources are partitioned into the visible and the
//! background group, each keeping the snapshot's order; each resource gets
//! one submenu whose tail depends on its authentication state.

use vstd::prelude::*;
use vstd::multiset::Multiset;
use vstd::string::StringExecFns;
use crate::ids::{item_id, make_item_id};
use crate::menu::{
    MenuEntry, MenuEntryView, MenuNode, MenuNodeView, MenuSpec, MenuSpecView, SubNode,
    SubNodeView, Submenu, SubmenuView,
};
use crate::model::{Network, NetworkView, Resource, ResourceView, snapshot_wf};
use crate::text::{dec_digits, fmt_u64};

verus! {

/// Milliseconds per day, the unit of the expiry countdown.
pub const MILLIS_PER_DAY: i64 = 86400000;

/// Whole days left until an expiry stamp of `ms` milliseconds.
pub open spec fn expiry_days(ms: int) -> nat
    recommends
        ms >= 0,
{
    (ms / (MILLIS_PER_DAY as int)) as nat
}

/// The label of the expiry line: whole days, floor division, sub-day
/// remainders not distinguished.
pub open spec fn expiry_label(ms: int) -> Seq<char> {
    "auth expires in "@ + dec_digits(expiry_days(ms)) + " days"@
}

/// Relies on chrono::TimeDelta::num_days via chrono::TimeDelta::milliseconds:
/// for a nonnegative count of milliseconds it divides by 1000 and then by
/// 86400, truncating, which is floor division by 86_400_000.
#[verifier::external_body]
fn days_of_millis(ms: i64) -> (r: i64)
    requires
        0 <= ms,
    ensures
        r == ms as int / (MILLIS_PER_DAY as int),
{
    chrono::Duration::milliseconds(ms).num_days()
}

fn expiry_label_exec(ms: i64) -> (s: String)
    requires
        0 <= ms,
    ensures
        s@ == expiry_label(ms as int),
{
    let days = days_of_millis(ms);
    let mut s = String::from_str("auth expires in ");
    let d = fmt_u64(days as u64);
    s.append(d.as_str());
    s.append(" days");
    proof {
        assert(s@ =~= expiry_label(ms as int));
    }
    s
}

/// The submenu of one resource: its address (informational), a copy-address
/// action, a separator, then either the authentication-required pair or the
/// expiry countdown line.
pub open spec fn resource_submenu(r: ResourceView) -> SubmenuView {
    SubmenuView {
        label: r.name,
        nodes: seq![
            SubNodeView::Entry(
                MenuEntryView {
                    id: item_id("resource_address"@, r.id),
                    label: r.address,
                    disabled: true,
                },
            ),
            SubNodeView::Entry(
                MenuEntryView {
                    id: item_id("copy_address"@, r.id),
                    label: "Copy Address"@,
                    disabled: false,
                },
            ),
            SubNodeView::Separator,
        ] + if r.auth_expires_at == 0 {
            seq![
                SubNodeView::Entry(
                    MenuEntryView {
                        id: "auth_required"@,
                        label: "Authentication Required"@,
                        disabled: true,
                    },
                ),
                SubNodeView::Entry(
                    MenuEntryView {
                        id: item_id("authenticate"@, r.id),
                        label: "Authenticate..."@,
                        disabled: false,
                    },
                ),
            ]
        } else {
            seq![
                SubNodeView::Entry(
                    MenuEntryView {
                        id: "auth_required"@,
                        label: expiry_label(r.auth_expires_at),
                        disabled: true,
                    },
                ),
            ]
        },
    }
}

/// The visibility predicate that partitions the resources.
pub open spec fn vis_pred() -> spec_fn(ResourceView) -> bool {
    |r: ResourceView| r.is_visible_in_client
}

/// The complement of the visibility predicate.
pub open spec fn bg_pred() -> spec_fn(ResourceView) -> bool {
    |r: ResourceView| !r.is_visible_in_client
}

/// The visible resources, in snapshot order.
pub open spec fn visible_resources(n: NetworkView) -> Seq<ResourceView> {
    n.resources.filter(vis_pred())
}

/// The background resources, in snapshot order.
pub open spec fn background_resources(n: NetworkView) -> Seq<ResourceView> {
    n.resources.filter(bg_pred())
}

/// One top-level submenu node per resource, in order.
pub open spec fn submenus(rs: Seq<ResourceView>) -> Seq<MenuNodeView> {
    rs.map_values(|r: ResourceView| MenuNodeView::Submenu(resource_submenu(r)))
}

/// The whole menu of a snapshot: user line, the two fixed actions, the
/// visible group under its count, then the background group under its own
/// count, each group in snapshot order.
pub open spec fn spec_build(n: NetworkView) -> MenuSpecView {
    MenuSpecView {
        nodes: seq![
            MenuNodeView::Entry(
                MenuEntryView { id: "user_status"@, label: n.user.email, disabled: true },
            ),
            MenuNodeView::Entry(
                MenuEntryView {
                    id: "stop_service"@,
                    label: "Stop Twingate Service"@,
                    disabled: false,
                },
            ),
            MenuNodeView::Entry(
                MenuEntryView { id: "quit"@, label: "Close Tray"@, disabled: false },
            ),
            MenuNodeView::Separator,
            MenuNodeView::Entry(
                MenuEntryView {
                    id: "num_resources"@,
                    label: dec_digits(visible_resources(n).len()) + " Resources"@,
                    disabled: true,
                },
            ),
        ] + submenus(visible_resources(n)) + seq![
            MenuNodeView::Separator,
            MenuNodeView::Entry(
                MenuEntryView {
                    id: "background_resources_count"@,
                    label: dec_digits(background_resources(n).len()) + " Background Resources"@,
                    disabled: true,
                },
            ),
        ] + submenus(background_resources(n)),
    }
}

/// Builds the submenu of one resource.
pub fn build_resource_menu(r: &Resource) -> (sm: Submenu)
    requires
        r@.auth_expires_at >= 0,
    ensures
        sm@ == resource_submenu(r@),
{
    let mut nodes: Vec<SubNode> = Vec::new();
    nodes.push(
        SubNode::Entry(
            MenuEntry {
                id: make_item_id("resource_address", r.id.as_str()),
                label: r.address.clone(),
                disabled: true,
            },
        ),
    );
    nodes.push(
        SubNode::Entry(
            MenuEntry {
                id: make_item_id("copy_address", r.id.as_str()),
                label: String::from_str("Copy Address"),
                disabled: false,
            },
        ),
    );
    nodes.push(SubNode::Separator);
    if r.auth_expires_at == 0 {
        nodes.push(
            SubNode::Entry(
                MenuEntry {
                    id: String::from_str("auth_required"),
                    label: String::from_str("Authentication Required"),
                    disabled: true,
                },
            ),
        );
        nodes.push(
            SubNode::Entry(
                MenuEntry {
                    id: make_item_id("authenticate", r.id.as_str()),
                    label: String::from_str("Authenticate..."),
                    disabled: false,
                },
            ),
        );
    } else {
        nodes.push(
            SubNode::Entry(
                MenuEntry {
                    id: String::from_str("auth_required"),
                    label: expiry_label_exec(r.auth_expires_at),
                    disabled: true,
                },
            ),
        );
    }
    let sm = Submenu { label: r.name.clone(), nodes };
    proof {
        assert(sm@ =~= resource_submenu(r@));
    }
    sm
}

/// Auth-label correctness: a resource whose authentication has run out
/// (expiry stamp zero) gets the required line and the authenticate action;
/// any other resource gets the single whole-days countdown line, floor
/// semantics, sub-day remainders not distinguished.
pub proof fn lemma_auth_label(r: ResourceView)
    requires
        r.auth_expires_at >= 0,
    ensures
        r.auth_expires_at == 0 ==> {
            &&& resource_submenu(r).nodes.len() == 5
            &&& resource_submenu(r).nodes[3] == SubNodeView::Entry(
                MenuEntryView {
                    id: "auth_required"@,
                    label: "Authentication Required"@,
                    disabled: true,
                },
            )
            &&& resource_submenu(r).nodes[4] == SubNodeView::Entry(
                MenuEntryView {
                    id: item_id("authenticate"@, r.id),
                    label: "Authenticate..."@,
                    disabled: false,
                },
            )
        },
        r.auth_expires_at != 0 ==> {
            &&& resource_submenu(r).nodes.len() == 4
            &&& resource_submenu(r).nodes[3] == SubNodeView::Entry(
                MenuEntryView {
                    id: "auth_required"@,
                    label: expiry_label(r.auth_expires_at),
                    disabled: true,
                },
            )
        },
{
}

/// Determinism: the menu is a function of the snapshot alone, so two builds
/// of the same snapshot are the same menu. Together with `build_menu`'s
/// postcondition this pins any two calls on one snapshot to one result.
pub proof fn lemma_build_deterministic(a: MenuSpecView, b: MenuSpecView, n: NetworkView)
    requires
        a == spec_build(n),
        b == spec_build(n),
    ensures
        a == b,
{
}

proof fn lemma_filter_partition_counts(rs: Seq<ResourceView>, x: ResourceView)
    ensures
        rs.to_multiset().count(x) == rs.filter(vis_pred()).to_multiset().count(x) + rs.filter(
            bg_pred(),
        ).to_multiset().count(x),
    decreases rs.len(),
{
    broadcast use vstd::seq_lib::group_to_multiset_ensures;
    broadcast use vstd::multiset::group_multiset_axioms;

    reveal(Seq::filter);
    if rs.len() == 0 {
        assert(rs.to_multiset() =~= Multiset::<ResourceView>::empty());
    } else {
        lemma_filter_partition_counts(rs.drop_last(), x);
        assert(rs =~= rs.drop_last().push(rs.last()));
        assert(rs.to_multiset() =~= rs.drop_last().push(rs.last()).to_multiset());
    }
}

/// Partition invariant: counted with multiplicity, every resource of the
/// snapshot stands in exactly one of the two groups, each group holds only
/// resources of its own kind, and each group keeps the snapshot's relative
/// order (`Seq::filter` removes elements without reordering).
pub proof fn lemma_partition(n: NetworkView)
    ensures
        forall|x: ResourceView| #[trigger]
            n.resources.to_multiset().count(x) == visible_resources(n).to_multiset().count(x)
                + background_resources(n).to_multiset().count(x),
        forall|x: ResourceView|
            #[trigger] visible_resources(n).contains(x) ==> x.is_visible_in_client,
        forall|x: ResourceView|
            #[trigger] background_resources(n).contains(x) ==> !x.is_visible_in_client,
        visible_resources(n).len() + background_resources(n).len() == n.resources.len(),
{
    broadcast use vstd::seq_lib::group_to_multiset_ensures;
    broadcast use vstd::multiset::group_multiset_axioms;

    assert forall|x: ResourceView| #[trigger]
        n.resources.to_multiset().count(x) == visible_resources(n).to_multiset().count(x)
            + background_resources(n).to_multiset().count(x) by {
        lemma_filter_partition_counts(n.resources, x);
    }
    assert forall|x: ResourceView| #[trigger]
        visible_resources(n).contains(x) implies x.is_visible_in_client by {
        let i = choose|i: int|
            0 <= i < visible_resources(n).len() && visible_resources(n)[i] == x;
        Seq::lemma_filter_pred(n.resources, vis_pred(), i);
    }
    assert forall|x: ResourceView| #[trigger]
        background_resources(n).contains(x) implies !x.is_visible_in_client by {
        let i = choose|i: int|
            0 <= i < background_resources(n).len() && background_resources(n)[i] == x;
        Seq::lemma_filter_pred(n.resources, bg_pred(), i);
    }
    assert(n.resources.to_multiset() =~= visible_resources(n).to_multiset().add(
        background_resources(n).to_multiset(),
    ));
    assert(n.resources.to_multiset().len() == n.resources.len());
    assert(visible_resources(n).to_multiset().len() == visible_resources(n).len());
    assert(background_resources(n).to_multiset().len() == background_resources(n).len());
}

/// The menu's size: seven fixed nodes plus one submenu per resource, each
/// resource in exactly one group.
pub proof fn lemma_menu_size(n: NetworkView)
    ensures
        spec_build(n).nodes.len() == 7 + n.resources.len(),
{
    lemma_partition(n);
}

proof fn lemma_filter_take_step(rs: Seq<ResourceView>, p: spec_fn(ResourceView) -> bool, i: int)
    requires
        0 <= i < rs.len(),
    ensures
        rs.take(i + 1).filter(p) == if p(rs[i]) {
            rs.take(i).filter(p).push(rs[i])
        } else {
            rs.take(i).filter(p)
        },
{
    reveal(Seq::filter);
    assert(rs.take(i + 1).drop_last() =~= rs.take(i));
    assert(rs.take(i + 1).last() == rs[i]);
}

proof fn lemma_submenus_push(rs: Seq<ResourceView>, r: ResourceView)
    ensures
        submenus(rs.push(r)) == submenus(rs).push(MenuNodeView::Submenu(resource_submenu(r))),
{
    assert(submenus(rs.push(r)) =~= submenus(rs).push(MenuNodeView::Submenu(resource_submenu(r))));
}

fn group_submenus(n: &Network, visible: bool) -> (v: Vec<MenuNode>)
    requires
        snapshot_wf(n@),
    ensures
        visible ==> v@.map_values(|m: MenuNode| m@) == submenus(visible_resources(n@)),
        !visible ==> v@.map_values(|m: MenuNode| m@) == submenus(background_resources(n@)),
{
    let ghost p: spec_fn(ResourceView) -> bool = if visible {
        vis_pred()
    } else {
        bg_pred()
    };
    let mut v: Vec<MenuNode> = Vec::new();
    let mut i: usize = 0;
    while i < n.resources.len()
        invariant
            snapshot_wf(n@),
            i <= n.resources.len(),
            n@.resources.len() == n.resources.len(),
            p == if visible {
                vis_pred()
            } else {
                bg_pred()
            },
            v@.map_values(|m: MenuNode| m@) == submenus(
                n@.resources.take(i as int).filter(p),
            ),
        decreases n.resources.len() - i,
    {
        let r = &n.resources[i];
        proof {
            assert(n@.resources[i as int] == n.resources@[i as int]@);
        }
        if r.is_visible_in_client == visible {
            let sm = build_resource_menu(r);
            let ghost prev = v@;
            v.push(MenuNode::Submenu(sm));
            proof {
                assert(v@.map_values(|m: MenuNode| m@) =~= prev.map_values(
                    |m: MenuNode| m@,
                ).push(MenuNodeView::Submenu(resource_submenu(n@.resources[i as int]))));
                lemma_submenus_push(n@.resources.take(i as int).filter(p), n@.resources[i as int]);
            }
        }
        proof {
            lemma_filter_take_step(n@.resources, p, i as int);
        }
        i += 1;
    }
    proof {
        assert(n@.resources.take(n.resources.len() as int) =~= n@.resources);
    }
    v
}

/// Builds the whole menu of one snapshot. Deterministic: the result is a
/// function of the snapshot alone.
pub fn build_menu(n: &Network) -> (m: MenuSpec)
    requires
        snapshot_wf(n@),
    ensures
        m@ == spec_build(n@),
{
    let mut vis = group_submenus(n, true);
    let mut bg = group_submenus(n, false);

    let mut nodes: Vec<MenuNode> = Vec::new();
    nodes.push(
        MenuNode::Entry(
            MenuEntry {
                id: String::from_str("user_status"),
                label: n.user.email.clone(),
                disabled: true,
            },
        ),
    );
    nodes.push(
        MenuNode::Entry(
            MenuEntry {
                id: String::from_str("stop_service"),
                label: String::from_str("Stop Twingate Service"),
                disabled: false,
            },
        ),
    );
    nodes.push(
        MenuNode::Entry(
            MenuEntry {
                id: String::from_str("quit"),
                label: String::from_str("Close Tray"),
                disabled: false,
            },
        ),
    );
    nodes.push(MenuNode::Separator);
    let mut vis_label = fmt_u64(vis.len() as u64);
    vis_label.append(" Resources");
    nodes.push(
        MenuNode::Entry(
            MenuEntry { id: String::from_str("num_resources"), label: vis_label, disabled: true },
        ),
    );
    nodes.append(&mut vis);
    nodes.push(MenuNode::Separator);
    let mut bg_label = fmt_u64(bg.len() as u64);
    bg_label.append(" Background Resources");
    nodes.push(
        MenuNode::Entry(
            MenuEntry {
                id: String::from_str("background_resources_count"),
                label: bg_label,
                disabled: true,
            },
        ),
    );
    nodes.append(&mut bg);
    let m = MenuSpec { nodes };
    proof {
        assert(m@.nodes =~= spec_build(n@).nodes);
    }
    m
}

} // verus!
