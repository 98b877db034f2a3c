//! The snapshot data model: what one fetch of the network client's state
//! reports. A snapshot is handed to the library as plain values; the library
//! never caches one across refresh ticks.

use vstd::prelude::*;

verus! {

/// An alternative address under which a resource is reachable.
#[derive(Clone, Debug, PartialEq, Eq)]
pub struct Alias {
    pub address: String,
    pub open_url: String,
}

#[verifier::ext_equal]
pub struct AliasView {
    pub address: Seq<char>,
    pub open_url: Seq<char>,
}

impl View for Alias {
    type V = AliasView;

    open spec fn view(&self) -> AliasView {
        AliasView { address: self.address@, open_url: self.open_url@ }
    }
}

/// One network endpoint managed by the client.
///
/// `auth_expires_at` is `0` when authentication is required, otherwise an
/// expiry instant in epoch milliseconds. `is_visible_in_client` decides which
/// of the two top-level menu groups the resource is rendered under.
#[derive(Clone, Debug, PartialEq, Eq)]
pub struct Resource {
    pub address: String,
    pub admin_url: String,
    pub aliases: Option<Vec<Alias>>,
    pub auth_expires_at: i64,
    pub auth_flow_id: String,
    pub can_open_in_browser: bool,
    pub id: String,
    pub is_visible_in_client: bool,
    pub name: String,
    pub open_url: String,
    pub resource_type: String,
}

#[verifier::ext_equal]
pub struct ResourceView {
    pub address: Seq<char>,
    pub admin_url: Seq<char>,
    pub aliases: Option<Seq<AliasView>>,
    pub auth_expires_at: int,
    pub auth_flow_id: Seq<char>,
    pub can_open_in_browser: bool,
    pub id: Seq<char>,
    pub is_visible_in_client: bool,
    pub name: Seq<char>,
    pub open_url: Seq<char>,
    pub resource_type: Seq<char>,
}

impl View for Resource {
    type V = ResourceView;

    open spec fn view(&self) -> ResourceView {
        ResourceView {
            address: self.address@,
            admin_url: self.admin_url@,
            aliases: match self.aliases {
                Option::Some(v) => Option::Some(v@.map_values(|a: Alias| a@)),
                Option::None => Option::None,
            },
            auth_expires_at: self.auth_expires_at as int,
            auth_flow_id: self.auth_flow_id@,
            can_open_in_browser: self.can_open_in_browser,
            id: self.id@,
            is_visible_in_client: self.is_visible_in_client,
            name: self.name@,
            open_url: self.open_url@,
            resource_type: self.resource_type@,
        }
    }
}

/// The identity the client reports for the signed-in user.
#[derive(Clone, Debug, PartialEq, Eq)]
pub struct User {
    pub avatar_url: String,
    pub email: String,
    pub first_name: String,
    pub id: String,
    pub is_admin: bool,
    pub last_name: String,
}

#[verifier::ext_equal]
pub struct UserView {
    pub avatar_url: Seq<char>,
    pub email: Seq<char>,
    pub first_name: Seq<char>,
    pub id: Seq<char>,
    pub is_admin: bool,
    pub last_name: Seq<char>,
}

impl View for User {
    type V = UserView;

    open spec fn view(&self) -> UserView {
        UserView {
            avatar_url: self.avatar_url@,
            email: self.email@,
            first_name: self.first_name@,
            id: self.id@,
            is_admin: self.is_admin,
            last_name: self.last_name@,
        }
    }
}

/// One fetched snapshot of the client's state.
#[derive(Clone, Debug, PartialEq, Eq)]
pub struct Network {
    pub admin_url: String,
    pub resources: Vec<Resource>,
    pub user: User,
}

#[verifier::ext_equal]
pub struct NetworkView {
    pub admin_url: Seq<char>,
    pub resources: Seq<ResourceView>,
    pub user: UserView,
}

impl View for Network {
    type V = NetworkView;

    open spec fn view(&self) -> NetworkView {
        NetworkView {
            admin_url: self.admin_url@,
            resources: self.resources@.map_values(|r: Resource| r@),
            user: self.user@,
        }
    }
}

/// A snapshot is well formed when every expiry stamp is nonnegative:
/// `0` means "authentication required", anything else is an epoch-millisecond
/// instant, so a negative stamp is outside the data model.
pub open spec fn snapshot_wf(n: NetworkView) -> bool {
    forall|i: int| 0 <= i < n.resources.len() ==> (#[trigger] n.resources[i]).auth_expires_at >= 0
}

/// Checks well-formedness of a snapshot that arrived from outside.
pub fn check_snapshot_wf(n: &Network) -> (r: bool)
    ensures
        r == snapshot_wf(n@),
{
    let mut i: usize = 0;
    while i < n.resources.len()
        invariant
            i <= n.resources.len(),
            forall|j: int| 0 <= j < i ==> (#[trigger] n@.resources[j]).auth_expires_at >= 0,
        decreases n.resources.len() - i,
    {
        if n.resources[i].auth_expires_at < 0 {
            proof {
                assert(n@.resources[i as int].auth_expires_at < 0);
            }
            return false;
        }
        i += 1;
    }
    true
}

} // verus!
