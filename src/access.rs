//! Per-plugin access control over inbound message events.
use vstd::prelude::*;

verus! {

/// Whether the id list admits (whitelist) or refuses (blacklist) its members.
#[derive(Clone, Copy, Debug, PartialEq, Eq, Structural)]
pub enum AccessControlMode {
    WhiteList,
    BlackList,
}

/// The group ids and friend (user) ids that a policy names.
#[derive(Clone, Debug)]
pub struct AccessList {
    pub groups: Vec<i64>,
    pub friends: Vec<i64>,
}

/// A plugin's access-control policy; when `enabled` is false every message passes.
#[derive(Clone, Debug)]
pub struct AccessControl {
    pub enabled: bool,
    pub mode: AccessControlMode,
    pub list: AccessList,
}

/// Where a message came from: its group, if it was sent in one, and its sender.
#[derive(Clone, Copy, Debug, PartialEq, Eq, Structural)]
pub struct MessageOrigin {
    pub group_id: Option<i64>,
    pub sender_id: i64,
}

/// Whether a policy of `mode` delivers a message whose id is (or is not) listed.
pub open spec fn mode_delivers(mode: AccessControlMode, member: bool) -> bool {
    match mode {
        AccessControlMode::WhiteList => member,
        AccessControlMode::BlackList => !member,
    }
}

/// Whether the id that a policy matches for this message is listed: the group
/// id for a group message, the sender id for a private one.
pub open spec fn origin_listed(list: AccessList, origin: MessageOrigin) -> bool {
    match origin.group_id {
        Some(g) => list.groups@.contains(g),
        None => list.friends@.contains(origin.sender_id),
    }
}

/// Whether a policy lets a message through.
pub open spec fn access_allows(access: AccessControl, origin: MessageOrigin) -> bool {
    !access.enabled || mode_delivers(access.mode, origin_listed(access.list, origin))
}

/// Whether `id` occurs in `ids`.
pub fn contains_id(ids: &Vec<i64>, id: i64) -> (r: bool)
    ensures
        r == ids@.contains(id),
{
    let mut i: usize = 0;
    while i < ids.len()
        invariant
            i <= ids@.len(),
            forall|j: int| 0 <= j < i ==> ids@[j] != id,
        decreases ids@.len() - i,
    {
        if ids[i] == id {
            assert(ids@[i as int] == id);
            return true;
        }
        i = i + 1;
    }
    false
}

/// Whether the plugin's policy lets a message from `origin` through.
pub fn is_access(access: &AccessControl, origin: &MessageOrigin) -> (r: bool)
    ensures
        r == access_allows(*access, *origin),
{
    if !access.enabled {
        return true;
    }
    let listed = match origin.group_id {
        Some(g) => contains_id(&access.list.groups, g),
        None => contains_id(&access.list.friends, origin.sender_id),
    };
    match access.mode {
        AccessControlMode::WhiteList => listed,
        AccessControlMode::BlackList => !listed,
    }
}

/// Delivery under an enabled policy follows the truth table: a whitelist
/// delivers exactly its members, a blacklist exactly its non-members; with the
/// policy disabled everything is delivered.
pub proof fn lemma_access_truth_table(access: AccessControl, origin: MessageOrigin)
    ensures
        !access.enabled ==> access_allows(access, origin),
        access.enabled && access.mode == AccessControlMode::WhiteList && origin_listed(access.list, origin)
            ==> access_allows(access, origin),
        access.enabled && access.mode == AccessControlMode::WhiteList && !origin_listed(access.list, origin)
            ==> !access_allows(access, origin),
        access.enabled && access.mode == AccessControlMode::BlackList && origin_listed(access.list, origin)
            ==> !access_allows(access, origin),
        access.enabled && access.mode == AccessControlMode::BlackList && !origin_listed(access.list, origin)
            ==> access_allows(access, origin),
{
}

impl AccessList {
    pub fn new() -> (r: AccessList)
        ensures
            r.groups@.len() == 0,
            r.friends@.len() == 0,
    {
        AccessList { groups: Vec::new(), friends: Vec::new() }
    }

    /// Lists a group id (once).
    pub fn add_group(&mut self, id: i64)
        ensures
            forall|x: i64| #[trigger] final(self).groups@.contains(x) <==> (old(self).groups@.contains(x) || x == id),
            final(self).friends == old(self).friends,
    {
        let ghost before = self.groups@;
        if !contains_id(&self.groups, id) {
            self.groups.push(id);
            proof {
                assert(self.groups@[before.len() as int] == id);
                assert forall|x: i64| #[trigger] self.groups@.contains(x) <==> (before.contains(x) || x == id) by {
                    if before.contains(x) {
                        let j = choose|j: int| 0 <= j < before.len() && before[j] == x;
                        assert(self.groups@[j] == x);
                    }
                    if self.groups@.contains(x) && x != id {
                        let j = choose|j: int| 0 <= j < self.groups@.len() && self.groups@[j] == x;
                        assert(before[j] == x);
                    }
                }
            }
        }
    }

    /// Lists a friend id (once).
    pub fn add_friend(&mut self, id: i64)
        ensures
            forall|x: i64| #[trigger] final(self).friends@.contains(x) <==> (old(self).friends@.contains(x) || x == id),
            final(self).groups == old(self).groups,
    {
        let ghost before = self.friends@;
        if !contains_id(&self.friends, id) {
            self.friends.push(id);
            proof {
                assert(self.friends@[before.len() as int] == id);
                assert forall|x: i64| #[trigger] self.friends@.contains(x) <==> (before.contains(x) || x == id) by {
                    if before.contains(x) {
                        let j = choose|j: int| 0 <= j < before.len() && before[j] == x;
                        assert(self.friends@[j] == x);
                    }
                    if self.friends@.contains(x) && x != id {
                        let j = choose|j: int| 0 <= j < self.friends@.len() && self.friends@[j] == x;
                        assert(before[j] == x);
                    }
                }
            }
        }
    }
}

} // verus!
