//! A model of the server, to say what the calls of the engine do to it.
//!
//! The model holds what the engine changes: the settings, the groups, the
//! permissions bound to groups in templates, the users and their
//! memberships. A call that the server accepts changes the model as
//! [`Remote::receive`] says; a query changes nothing.

use vstd::prelude::*;
use crate::calls::{lemma_params_read_back, ApiCallView};
use crate::exchange::Endpoint;
use crate::sonar_api::SonarApiView;
use crate::text::decimal;

verus! {

/// A group on the server.
pub struct GroupRecord {
    pub id: nat,
    pub description: Seq<char>,
}

/// A user on the server.
pub struct UserRecord {
    pub name: Seq<char>,
    pub password: Seq<char>,
}

/// The state of the server.
#[verifier::ext_equal]
pub struct Remote {
    /// The settings, by key.
    pub settings: Map<Seq<char>, Seq<char>>,
    /// The groups, by name.
    pub groups: Map<Seq<char>, GroupRecord>,
    /// The identifier that the next new group gets.
    pub next_id: nat,
    /// The bound permissions: template, group and permission key.
    pub bindings: Set<(Seq<char>, Seq<char>, Seq<char>)>,
    /// The users, by login.
    pub users: Map<Seq<char>, UserRecord>,
    /// The memberships: login and group.
    pub members: Set<(Seq<char>, Seq<char>)>,
}

impl Remote {
    /// No two groups share an identifier, and none has the next one yet.
    pub open spec fn wf(self) -> bool {
        &&& forall|name: Seq<char>| #[trigger]
            self.groups.contains_key(name) ==> self.groups[name].id < self.next_id
        &&& forall|one: Seq<char>, other: Seq<char>|
            #![trigger self.groups[one], self.groups[other]]
            self.groups.contains_key(one) && self.groups.contains_key(other)
                && self.groups[one].id == self.groups[other].id ==> one == other
    }

    /// The permissions bound to a group in a template.
    pub open spec fn bound(self, template: Seq<char>, group: Seq<char>) -> Set<Seq<char>> {
        Set::new(|permission: Seq<char>| self.bindings.contains((template, group, permission)))
    }

    /// The groups after the description of the one with this identifier,
    /// written in decimal, was replaced.
    pub open spec fn described(self, id: Seq<char>, description: Seq<char>) -> Map<
        Seq<char>,
        GroupRecord,
    > {
        Map::new(
            |name: Seq<char>| self.groups.contains_key(name),
            |name: Seq<char>|
                if decimal(self.groups[name].id) == id {
                    GroupRecord { id: self.groups[name].id, description }
                } else {
                    self.groups[name]
                },
        )
    }

    /// The state after the server has accepted one call.
    pub open spec fn receive(self, call: ApiCallView) -> Remote {
        match call.endpoint {
            Endpoint::SettingsSet => match (call.value_of("key"@), call.value_of("value"@)) {
                (Some(key), Some(value)) => Remote {
                    settings: self.settings.insert(key, value),
                    ..self
                },
                _ => self,
            },
            Endpoint::UserGroupsCreate => match (
                call.value_of("name"@),
                call.value_of("description"@),
            ) {
                (Some(name), Some(description)) => if self.groups.contains_key(name) {
                    self
                } else {
                    Remote {
                        groups: self.groups.insert(
                            name,
                            GroupRecord { id: self.next_id, description },
                        ),
                        next_id: self.next_id + 1,
                        ..self
                    }
                },
                _ => self,
            },
            Endpoint::UserGroupsUpdate => match (
                call.value_of("id"@),
                call.value_of("description"@),
            ) {
                (Some(id), Some(description)) => Remote {
                    groups: self.described(id, description),
                    ..self
                },
                _ => self,
            },
            Endpoint::PermissionsAddGroupToTemplate => match (
                call.value_of("templateId"@),
                call.value_of("groupName"@),
                call.value_of("permission"@),
            ) {
                (Some(template), Some(group), Some(permission)) => Remote {
                    bindings: self.bindings.insert((template, group, permission)),
                    ..self
                },
                _ => self,
            },
            Endpoint::PermissionsRemoveGroupFromTemplate => match (
                call.value_of("templateId"@),
                call.value_of("groupName"@),
                call.value_of("permission"@),
            ) {
                (Some(template), Some(group), Some(permission)) => Remote {
                    bindings: self.bindings.remove((template, group, permission)),
                    ..self
                },
                _ => self,
            },
            Endpoint::UsersCreate => match (
                call.value_of("login"@),
                call.value_of("name"@),
                call.value_of("password"@),
            ) {
                (Some(login), Some(name), Some(password)) => if self.users.contains_key(login) {
                    self
                } else {
                    Remote { users: self.users.insert(login, UserRecord { name, password }), ..self }
                },
                _ => self,
            },
            Endpoint::UsersUpdate => match (call.value_of("login"@), call.value_of("name"@)) {
                (Some(login), Some(name)) => if self.users.contains_key(login) {
                    Remote {
                        users: self.users.insert(
                            login,
                            UserRecord { name, password: self.users[login].password },
                        ),
                        ..self
                    }
                } else {
                    self
                },
                _ => self,
            },
            Endpoint::UsersChangePassword => match (
                call.value_of("login"@),
                call.value_of("password"@),
            ) {
                (Some(login), Some(password)) => if self.users.contains_key(login) {
                    Remote {
                        users: self.users.insert(
                            login,
                            UserRecord { name: self.users[login].name, password },
                        ),
                        ..self
                    }
                } else {
                    self
                },
                _ => self,
            },
            Endpoint::UserGroupsAddUser => match (call.value_of("login"@), call.value_of("name"@)) {
                (Some(login), Some(group)) => Remote {
                    members: self.members.insert((login, group)),
                    ..self
                },
                _ => self,
            },
            Endpoint::UserGroupsRemoveUser => match (
                call.value_of("login"@),
                call.value_of("name"@),
            ) {
                (Some(login), Some(group)) => Remote {
                    members: self.members.remove((login, group)),
                    ..self
                },
                _ => self,
            },
            _ => self,
        }
    }

    /// The state after the server has accepted these calls, in order.
    pub open spec fn receive_all(self, calls: Seq<ApiCallView>) -> Remote
        decreases calls.len(),
    {
        if calls.len() == 0 {
            self
        } else {
            self.receive_all(calls.drop_last()).receive(calls.last())
        }
    }
}

/// Receiving two lists of calls one after the other is receiving them
/// joined.
pub proof fn lemma_receive_joined(remote: Remote, first: Seq<ApiCallView>, second: Seq<ApiCallView>)
    ensures
        remote.receive_all(first + second) == remote.receive_all(first).receive_all(second),
    decreases second.len(),
{
    if second.len() == 0 {
        assert(first + second =~= first);
    } else {
        lemma_receive_joined(remote, first, second.drop_last());
        assert((first + second).drop_last() =~= first + second.drop_last());
        assert((first + second).last() == second.last());
    }
}

/// Receiving one call.
pub proof fn lemma_receive_one(remote: Remote, call: ApiCallView)
    ensures
        remote.receive_all(seq![call]) == remote.receive(call),
{
    assert(seq![call].drop_last() =~= Seq::<ApiCallView>::empty());
    assert(remote.receive_all(seq![call].drop_last()) == remote);
}

/// The bindings after every permission of a catalog was settled for a
/// group: within the catalog the group holds what is desired, and nothing
/// else has changed.
pub open spec fn settled_bindings(
    bindings: Set<(Seq<char>, Seq<char>, Seq<char>)>,
    template: Seq<char>,
    group: Seq<char>,
    desired: Seq<Seq<char>>,
    catalog: Seq<Seq<char>>,
) -> Set<(Seq<char>, Seq<char>, Seq<char>)> {
    Set::new(
        |binding: (Seq<char>, Seq<char>, Seq<char>)|
            if binding.0 == template && binding.1 == group && catalog.contains(binding.2) {
                desired.contains(binding.2)
            } else {
                bindings.contains(binding)
            },
    )
}

/// What the calls that settle the permissions of a group do to the server:
/// they leave everything as it is but the bindings of that group in the
/// default template, and of those the ones of the catalog.
pub proof fn lemma_permission_calls_settle(
    remote: Remote,
    api: SonarApiView,
    group: Seq<char>,
    desired: Seq<Seq<char>>,
    catalog: Seq<Seq<char>>,
)
    ensures
        remote.receive_all(api.permission_calls(group, desired, catalog)) == (Remote {
            bindings: settled_bindings(
                remote.bindings,
                api.default_template,
                group,
                desired,
                catalog,
            ),
            ..remote
        }),
    decreases catalog.len(),
{
    let template = api.default_template;
    let after = remote.receive_all(api.permission_calls(group, desired, catalog));
    let claimed = settled_bindings(remote.bindings, template, group, desired, catalog);
    if catalog.len() == 0 {
        assert(claimed =~= remote.bindings);
    } else {
        let key = catalog.last();
        let earlier = catalog.drop_last();
        lemma_permission_calls_settle(remote, api, group, desired, earlier);
        lemma_params_read_back(group, key, template);
        let calls = api.permission_calls(group, desired, catalog);
        assert(calls.drop_last() =~= api.permission_calls(group, desired, earlier));
        assert forall|permission: Seq<char>| catalog.contains(permission) <==> (earlier.contains(
            permission,
        ) || permission == key) by {
            if catalog.contains(permission) {
                let i = choose|i: int| 0 <= i < catalog.len() && catalog[i] == permission;
                if i < catalog.len() - 1 {
                    assert(earlier[i] == permission);
                }
            }
            if earlier.contains(permission) {
                let i = choose|i: int| 0 <= i < earlier.len() && earlier[i] == permission;
                assert(catalog[i] == permission);
            }
            if permission == key {
                assert(catalog[catalog.len() - 1] == key);
            }
        }
        assert(after.bindings =~= claimed);
    }
}

} // verus!
