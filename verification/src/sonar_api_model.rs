//! What the engine sends to the server and what the server answers, as plain
//! values.

use vstd::prelude::*;
use crate::config_file_model::{Admin, Group, Property, User};

verus! {

/// The paging block of a listing.
#[derive(Debug, Clone)]
pub struct SonarPaging {
    pub page_index: usize,
    pub page_size: usize,
    pub total: usize,
}

/// A group as it should be: `permissions` is the complete set the group is
/// to hold.
#[derive(Debug, Clone)]
pub struct SonarGroupCreationRequest {
    pub name: String,
    pub description: String,
    pub permissions: Vec<String>,
}

/// The answer to a group search.
#[derive(Debug, Clone)]
pub struct SonarGroups {
    pub paging: SonarPaging,
    pub groups: Vec<SonarGroup>,
}

/// A group as the server reports it.
#[derive(Debug, Clone)]
pub struct SonarGroup {
    pub id: usize,
    pub name: String,
    pub description: String,
    pub permissions: Vec<String>,
}

/// A server setting as it should be.
#[derive(Debug, Clone)]
pub struct SonarProperty {
    pub name: String,
    pub value: String,
}

/// What should change on the administrator's account.
#[derive(Debug, Clone)]
pub struct SonarAdminUpdateRequest {
    pub password: Option<String>,
}

/// A user, as it should be or as the server reports it.
#[derive(Debug, Clone)]
pub struct SonarUser {
    pub login: String,
    pub name: String,
    pub password: Option<String>,
    pub groups: Vec<String>,
}

/// The answer to a user search.
#[derive(Debug, Clone)]
pub struct SonarUsers {
    pub paging: SonarPaging,
    pub users: Vec<SonarUser>,
}

/// The answer to a query for the members of a group.
#[derive(Debug, Clone)]
pub struct SonarGroupMembers {
    pub users: Vec<SonarGroupMembership>,
    pub page_index: usize,
    pub page_size: usize,
    pub total: usize,
}

/// One member of a group.
#[derive(Debug, Clone)]
pub struct SonarGroupMembership {
    pub name: String,
    pub login: String,
    pub selected: bool,
}

/// The answer to a query for the groups of a user.
#[derive(Debug, Clone)]
pub struct SonarUserGroups {
    pub paging: SonarPaging,
    pub groups: Vec<SonarUserMembership>,
}

/// One group a user belongs to.
#[derive(Debug, Clone)]
pub struct SonarUserMembership {
    pub id: usize,
    pub name: String,
    pub description: String,
    pub selected: bool,
    pub default: bool,
}

/// The answer to a search for permission templates: the templates, and in
/// `permissions` the catalog of every permission the server knows.
#[derive(Debug, Clone)]
pub struct SonarPermissionTemplates {
    pub permission_templates: Vec<SonarPermissionTemplate>,
    pub default_templates: Vec<SonarDefaultTemplate>,
    pub permissions: Vec<SonarPermission>,
}

/// Which template is the default for a kind of component.
#[derive(Debug, Clone)]
pub struct SonarDefaultTemplate {
    pub template_id: String,
    pub qualifier: String,
}

/// One entry of the permission catalog.
#[derive(Debug, Clone)]
pub struct SonarPermission {
    pub key: String,
    pub name: String,
    pub description: String,
}

/// One permission template.
#[derive(Debug, Clone)]
pub struct SonarPermissionTemplate {
    pub id: String,
    pub name: String,
    pub description: String,
    pub permissions: Vec<SonarPermissionTemplatePermission>,
}

/// A permission key inside a template.
#[derive(Debug, Clone)]
pub struct SonarPermissionTemplatePermission {
    pub key: String,
}

/// A freshly minted API token.
#[derive(Debug, Clone)]
pub struct SonarGeneratedToken {
    pub login: String,
    pub name: String,
    pub token: String,
}

/// The body of an answer outside the 2xx range.
#[derive(Debug, Clone)]
pub struct SonarErrors {
    pub errors: Option<Vec<SonarError>>,
}

/// One message of such a body.
#[derive(Debug, Clone)]
pub struct SonarError {
    pub msg: String,
}

/// The answer to a credential check.
#[derive(Debug, Clone)]
pub struct SonarAuthenticationValidationResult {
    pub valid: bool,
}

/// What the server said is its own model: its texts are read through their
/// views where they are compared.
impl DeepView for SonarGroup {
    type V = SonarGroup;

    open spec fn deep_view(&self) -> SonarGroup {
        *self
    }
}

impl DeepView for SonarPermissionTemplates {
    type V = SonarPermissionTemplates;

    open spec fn deep_view(&self) -> SonarPermissionTemplates {
        *self
    }
}

impl SonarGroups {
    /// The first group of the listing with exactly this name.
    pub open spec fn named(&self, name: Seq<char>) -> Option<SonarGroup> {
        first_named(self.groups@, name)
    }
}

/// The first group of a list with exactly this name.
pub open spec fn first_named(groups: Seq<SonarGroup>, name: Seq<char>) -> Option<SonarGroup>
    decreases groups.len(),
{
    if groups.len() == 0 {
        None
    } else if groups[0].name@ == name {
        Some(groups[0])
    } else {
        first_named(groups.skip(1), name)
    }
}

impl SonarUsers {
    /// The logins of the listing, in order.
    pub open spec fn logins(&self) -> Seq<Seq<char>> {
        Seq::new(self.users@.len(), |i: int| self.users@[i].login@)
    }
}

impl SonarUserGroups {
    /// The names of the groups of the listing, in order.
    pub open spec fn names(&self) -> Seq<Seq<char>> {
        Seq::new(self.groups@.len(), |i: int| self.groups@[i].name@)
    }

    /// The listing is one whole page: its size is the reported total.
    pub open spec fn complete(&self) -> bool {
        self.paging.page_size == self.paging.total
    }
}

impl SonarPermissionTemplates {
    /// The keys of the permission catalog, in order.
    pub open spec fn keys(&self) -> Seq<Seq<char>> {
        Seq::new(self.permissions@.len(), |i: int| self.permissions@[i].key@)
    }
}

/// Every text of `texts` has been put through the resolver, and `resolved`
/// holds the results in the same order.
pub open spec fn each_resolved<F: Fn(&String) -> String>(texts: Seq<String>, resolver: &F, resolved: Seq<String>) -> bool {
    &&& resolved.len() == texts.len()
    &&& forall|i: int|
        0 <= i < texts.len() ==> call_ensures(resolver, (&texts[i],), #[trigger] resolved[i])
}

/// Puts every text of a list through the resolver.
fn resolve_each<F: Fn(&String) -> String>(texts: &Vec<String>, resolver: &F) -> (resolved: Vec<String>)
    requires
        forall|text: &String| call_requires(resolver, (text,)),
    ensures
        each_resolved(texts@, resolver, resolved@),
{
    let mut resolved: Vec<String> = Vec::new();
    let mut i: usize = 0;
    while i < texts.len()
        invariant
            i <= texts.len(),
            resolved.len() == i,
            forall|text: &String| call_requires(resolver, (text,)),
            forall|j: int| 0 <= j < i ==> call_ensures(resolver, (&texts@[j],), #[trigger] resolved@[j]),
        decreases texts.len() - i,
    {
        resolved.push(resolver(&texts[i]));
        i += 1;
    }
    resolved
}

/// A list turned end for end.
fn reversed(texts: Vec<String>) -> (turned: Vec<String>)
    ensures
        turned@ == texts@.reverse(),
{
    let mut rest = texts;
    let mut turned: Vec<String> = Vec::new();
    let ghost all = rest@;
    while rest.len() > 0
        invariant
            rest@.len() + turned@.len() == all.len(),
            forall|j: int| 0 <= j < rest@.len() ==> rest@[j] == all[j],
            forall|j: int| 0 <= j < turned@.len() ==> turned@[j] == all[all.len() - 1 - j],
        decreases rest.len(),
    {
        let last = rest.pop();
        if let Some(text) = last {
            turned.push(text);
        }
    }
    assert(turned@ =~= all.reverse());
    turned
}

impl SonarGroupCreationRequest {
    /// This request is the group with every text put through the resolver.
    /// The permissions stand in the opposite order.
    pub open spec fn resolved_from<F: Fn(&String) -> String>(&self, group: &Group, resolver: &F) -> bool {
        &&& call_ensures(resolver, (&group.name,), self.name)
        &&& call_ensures(resolver, (&group.description,), self.description)
        &&& each_resolved(group.permissions@, resolver, self.permissions@.reverse())
    }

    /// The desired state of one group of the configuration, after variable
    /// substitution by the resolver.
    pub fn from_configuration_group<F: Fn(&String) -> String>(group: &Group, _resolver: &F) -> (request: SonarGroupCreationRequest)
        requires
            forall|text: &String| call_requires(_resolver, (text,)),
        ensures
            request.resolved_from(group, _resolver),
    {
        let name = _resolver(&group.name);
        let description = _resolver(&group.description);
        let resolved = resolve_each(&group.permissions, _resolver);
        let permissions = reversed(resolved);
        assert(permissions@.reverse() =~= resolved@);
        SonarGroupCreationRequest { name, description, permissions }
    }

    /// The desired state of every group of the configuration, in order.
    pub fn from_configuration_groups<F: Fn(&String) -> String>(groups: &Vec<Group>, _resolver: &F) -> (mapped: Vec<SonarGroupCreationRequest>)
        requires
            forall|text: &String| call_requires(_resolver, (text,)),
        ensures
            mapped.len() == groups.len(),
            forall|i: int|
                0 <= i < groups.len() ==> (#[trigger] mapped[i]).resolved_from(&groups[i], _resolver),
    {
        let mut mapped: Vec<SonarGroupCreationRequest> = Vec::new();
        let mut i: usize = 0;
        while i < groups.len()
            invariant
                i <= groups.len(),
                mapped.len() == i,
                forall|text: &String| call_requires(_resolver, (text,)),
                forall|j: int|
                    0 <= j < i ==> (#[trigger] mapped[j]).resolved_from(&groups[j], _resolver),
            decreases groups.len() - i,
        {
            mapped.push(Self::from_configuration_group(&groups[i], _resolver));
            i += 1;
        }
        mapped
    }
}

impl SonarProperty {
    /// This setting is the property with both texts put through the
    /// resolver.
    pub open spec fn resolved_from<F: Fn(&String) -> String>(&self, property: &Property, resolver: &F) -> bool {
        &&& call_ensures(resolver, (&property.name,), self.name)
        &&& call_ensures(resolver, (&property.value,), self.value)
    }

    /// The desired state of one setting of the configuration, after
    /// variable substitution by the resolver.
    pub fn from_configuration_property<F: Fn(&String) -> String>(property: &Property, _resolver: &F) -> (setting: SonarProperty)
        requires
            forall|text: &String| call_requires(_resolver, (text,)),
        ensures
            setting.resolved_from(property, _resolver),
    {
        SonarProperty { name: _resolver(&property.name), value: _resolver(&property.value) }
    }

    /// The desired state of every setting of the configuration, in order.
    pub fn from_configuration_properties<F: Fn(&String) -> String>(properties: &Vec<Property>, _resolver: &F) -> (mapped: Vec<SonarProperty>)
        requires
            forall|text: &String| call_requires(_resolver, (text,)),
        ensures
            mapped.len() == properties.len(),
            forall|i: int|
                0 <= i < properties.len() ==> (#[trigger] mapped[i]).resolved_from(
                    &properties[i],
                    _resolver,
                ),
    {
        let mut mapped: Vec<SonarProperty> = Vec::new();
        let mut i: usize = 0;
        while i < properties.len()
            invariant
                i <= properties.len(),
                mapped.len() == i,
                forall|text: &String| call_requires(_resolver, (text,)),
                forall|j: int|
                    0 <= j < i ==> (#[trigger] mapped[j]).resolved_from(&properties[j], _resolver),
            decreases properties.len() - i,
        {
            mapped.push(Self::from_configuration_property(&properties[i], _resolver));
            i += 1;
        }
        mapped
    }
}

impl SonarAdminUpdateRequest {
    /// This request holds the administrator's password put through the
    /// resolver, and none where the configuration gives none.
    pub open spec fn resolved_from<F: Fn(&String) -> String>(&self, admin: &Admin, resolver: &F) -> bool {
        match (admin.password, self.password) {
            (Some(written), Some(resolved)) => call_ensures(resolver, (&written,), resolved),
            (None, None) => true,
            _ => false,
        }
    }

    /// What should change on the administrator's account, after variable
    /// substitution by the resolver.
    pub fn from_configuration<F: Fn(&String) -> String>(admin: &Admin, _resolver: &F) -> (request: SonarAdminUpdateRequest)
        requires
            forall|text: &String| call_requires(_resolver, (text,)),
        ensures
            request.resolved_from(admin, _resolver),
    {
        match &admin.password {
            Some(password) => SonarAdminUpdateRequest { password: Some(_resolver(password)) },
            None => SonarAdminUpdateRequest { password: None },
        }
    }
}

impl SonarUser {
    /// This user is the one of the configuration with every text put
    /// through the resolver; it always has a password, and no groups where
    /// the configuration names none.
    pub open spec fn resolved_from<F: Fn(&String) -> String>(&self, user: &User, resolver: &F) -> bool {
        &&& call_ensures(resolver, (&user.login,), self.login)
        &&& call_ensures(resolver, (&user.name,), self.name)
        &&& self.password matches Some(password) && call_ensures(
            resolver,
            (&user.password,),
            password,
        )
        &&& match user.groups {
            Some(groups) => each_resolved(groups@, resolver, self.groups@),
            None => self.groups@.len() == 0,
        }
    }

    /// The desired state of one user of the configuration, after variable
    /// substitution by the resolver.
    pub fn from_configuration_user<F: Fn(&String) -> String>(user: &User, _resolver: &F) -> (account: SonarUser)
        requires
            forall|text: &String| call_requires(_resolver, (text,)),
        ensures
            account.resolved_from(user, _resolver),
    {
        let login = _resolver(&user.login);
        let name = _resolver(&user.name);
        let password = Some(_resolver(&user.password));
        let groups = match &user.groups {
            Some(groups) => resolve_each(groups, _resolver),
            None => Vec::new(),
        };
        SonarUser { login, name, password, groups }
    }

    /// The desired state of every user of the configuration, in order.
    pub fn from_configuration_users<F: Fn(&String) -> String>(users: &Vec<User>, _resolver: &F) -> (mapped: Vec<SonarUser>)
        requires
            forall|text: &String| call_requires(_resolver, (text,)),
        ensures
            mapped.len() == users.len(),
            forall|i: int|
                0 <= i < users.len() ==> (#[trigger] mapped[i]).resolved_from(&users[i], _resolver),
    {
        let mut mapped: Vec<SonarUser> = Vec::new();
        let mut i: usize = 0;
        while i < users.len()
            invariant
                i <= users.len(),
                mapped.len() == i,
                forall|text: &String| call_requires(_resolver, (text,)),
                forall|j: int| 0 <= j < i ==> (#[trigger] mapped[j]).resolved_from(&users[j], _resolver),
            decreases users.len() - i,
        {
            mapped.push(Self::from_configuration_user(&users[i], _resolver));
            i += 1;
        }
        mapped
    }
}

} // verus!
