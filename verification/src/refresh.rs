//! The refresh state machine: a single-writer cell holding the currently
//! published menu, and one refresh tick. A tick that fetched a snapshot
//! replaces the menu with the snapshot's build; a tick whose fetch failed
//! leaves the previous menu in place and is never fatal.

use vstd::prelude::*;
use crate::builder::{build_menu, spec_build};
use crate::dispatch::ProviderError;
use crate::menu::{MenuSpec, MenuSpecView};
use crate::model::{Network, NetworkView, snapshot_wf};

verus! {

/// The owned cell behind which the live menu sits. The refresh loop is its
/// only writer; the surface reads whatever was last published.
pub struct Publisher {
    current: Option<MenuSpec>,
}

impl Publisher {
    /// The published menu, if any, as its mathematical model.
    pub closed spec fn spec_current(&self) -> Option<MenuSpecView> {
        match self.current {
            Option::Some(m) => Option::Some(m@),
            Option::None => Option::None,
        }
    }

    /// A fresh publisher with nothing published yet.
    pub fn new() -> (p: Publisher)
        ensures
            p.spec_current() is None,
    {
        Publisher { current: None }
    }

    /// Atomically replaces the published menu.
    pub fn publish(&mut self, m: MenuSpec)
        ensures
            final(self).spec_current() == Some(m@),
    {
        self.current = Some(m);
    }

    /// Reads the published menu.
    pub fn current(&self) -> (r: Option<&MenuSpec>)
        ensures
            match r {
                Some(m) => self.spec_current() == Some(m@),
                None => self.spec_current() is None,
            },
    {
        match &self.current {
            Some(m) => Some(m),
            None => None,
        }
    }
}

/// What one tick leaves published: the build of a fetched snapshot, or the
/// previous menu when the fetch failed.
pub open spec fn spec_tick(cur: Option<MenuSpecView>, fetched: Option<NetworkView>) -> Option<
    MenuSpecView,
> {
    match fetched {
        Option::Some(n) => Option::Some(spec_build(n)),
        Option::None => cur,
    }
}

/// One refresh tick: on a fetched snapshot, build and publish; on a fetch
/// failure, keep the previous menu. Returns whether a publish happened.
pub fn tick(p: &mut Publisher, fetched: Result<Network, ProviderError>) -> (published: bool)
    requires
        fetched matches Ok(n) ==> snapshot_wf(n@),
    ensures
        match fetched {
            Ok(n) => final(p).spec_current() == spec_tick(
                old(p).spec_current(),
                Some(n@),
            ) && published,
            Err(_) => final(p).spec_current() == old(p).spec_current() && !published,
        },
{
    match fetched {
        Ok(n) => {
            let m = build_menu(&n);
            p.publish(m);
            true
        },
        Err(_) => false,
    }
}

/// Refresh resilience: a failed tick leaves the previously published menu in
/// place, and the following successful tick publishes that snapshot's build
/// as if no failure had happened.
pub proof fn lemma_refresh_resilience(cur: Option<MenuSpecView>, n: NetworkView)
    ensures
        spec_tick(cur, None) == cur,
        spec_tick(spec_tick(cur, None), Some(n)) == Some(spec_build(n)),
        spec_tick(spec_tick(cur, None), Some(n)) == spec_tick(cur, Some(n)),
{
}

} // verus!
