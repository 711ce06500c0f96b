//! The calls of the administrative API that the engine makes.

use vstd::prelude::*;
use vstd::string::StringExecFns;
use crate::exchange::Endpoint;
use crate::text::{joined, param};

verus! {

/// One call of the API before it is given an address: what to ask, and the
/// words to report a refusal with.
#[derive(Debug, Clone)]
pub struct ApiCall {
    pub endpoint: Endpoint,
    /// The query parameters, in order and not yet escaped.
    pub params: Vec<(String, String)>,
    pub context: String,
}

/// The model of an [`ApiCall`].
pub struct ApiCallView {
    pub endpoint: Endpoint,
    pub params: Seq<(Seq<char>, Seq<char>)>,
    pub context: Seq<char>,
}

impl View for ApiCall {
    type V = ApiCallView;

    open spec fn view(&self) -> ApiCallView {
        ApiCallView {
            endpoint: self.endpoint,
            params: self.params.deep_view(),
            context: self.context@,
        }
    }
}

impl DeepView for ApiCall {
    type V = ApiCallView;

    open spec fn deep_view(&self) -> ApiCallView {
        self@
    }
}

impl ApiCallView {
    /// The value of the first parameter with this key.
    pub open spec fn value_of(self, key: Seq<char>) -> Option<Seq<char>> {
        first_value(self.params, key)
    }

    /// Sets one server setting.
    pub open spec fn set_setting(name: Seq<char>, value: Seq<char>) -> ApiCallView {
        ApiCallView {
            endpoint: Endpoint::SettingsSet,
            params: seq![("key"@, name), ("value"@, value)],
            context: "Error while setting property ["@ + name + "]."@,
        }
    }

    /// Searches the groups whose name has this text in it.
    pub open spec fn search_groups(name: Seq<char>) -> ApiCallView {
        ApiCallView {
            endpoint: Endpoint::UserGroupsSearch,
            params: seq![("q"@, name)],
            context: "Cannot deserialize response."@,
        }
    }

    /// Creates a group.
    pub open spec fn create_group(name: Seq<char>, description: Seq<char>) -> ApiCallView {
        ApiCallView {
            endpoint: Endpoint::UserGroupsCreate,
            params: seq![("name"@, name), ("description"@, description)],
            context: "Error while creating group ["@ + name + "]."@,
        }
    }

    /// Gives the group with this identifier a new description. The name only
    /// serves the report of a refusal.
    pub open spec fn update_group(id: Seq<char>, name: Seq<char>, description: Seq<char>) -> ApiCallView {
        ApiCallView {
            endpoint: Endpoint::UserGroupsUpdate,
            params: seq![("id"@, id), ("description"@, description)],
            context: "Error while updating group ["@ + name + "]."@,
        }
    }

    /// Searches the permission templates by name; the answer carries the
    /// permission catalog.
    pub open spec fn search_templates(template: Seq<char>) -> ApiCallView {
        ApiCallView {
            endpoint: Endpoint::PermissionsSearchTemplates,
            params: seq![("q"@, template)],
            context: "Cannot deserialize permission templates."@,
        }
    }

    /// Binds a permission to a group in a template. Binding twice changes
    /// nothing.
    pub open spec fn bind_permission(group: Seq<char>, permission: Seq<char>, template: Seq<char>) -> ApiCallView {
        ApiCallView {
            endpoint: Endpoint::PermissionsAddGroupToTemplate,
            params: seq![("groupName"@, group), ("permission"@, permission), ("templateId"@, template)],
            context: "Error while creating permission ["@ + permission + "]."@,
        }
    }

    /// Takes a permission from a group in a template. Nothing changes where
    /// it was not bound.
    pub open spec fn unbind_permission(group: Seq<char>, permission: Seq<char>, template: Seq<char>) -> ApiCallView {
        ApiCallView {
            endpoint: Endpoint::PermissionsRemoveGroupFromTemplate,
            params: seq![("groupName"@, group), ("permission"@, permission), ("templateId"@, template)],
            context: "Error while removing permission ["@ + permission + "]."@,
        }
    }

    /// Searches the users whose login or name has this text in it.
    pub open spec fn search_users(login: Seq<char>) -> ApiCallView {
        ApiCallView {
            endpoint: Endpoint::UsersSearch,
            params: seq![("q"@, login)],
            context: "Cannot deserialize response checking if login ["@ + login + "] exists."@,
        }
    }

    /// Creates a user.
    pub open spec fn create_user(login: Seq<char>, name: Seq<char>, password: Seq<char>) -> ApiCallView {
        ApiCallView {
            endpoint: Endpoint::UsersCreate,
            params: seq![("login"@, login), ("name"@, name), ("password"@, password)],
            context: "Error while creating user ["@ + login + "]."@,
        }
    }

    /// Gives a user a new display name.
    pub open spec fn update_user(login: Seq<char>, name: Seq<char>) -> ApiCallView {
        ApiCallView {
            endpoint: Endpoint::UsersUpdate,
            params: seq![("login"@, login), ("name"@, name)],
            context: "Error while updating user ["@ + login + "]."@,
        }
    }

    /// Sets the password of a user, as an administrator does: the old one is
    /// not asked for.
    pub open spec fn change_password(login: Seq<char>, password: Seq<char>) -> ApiCallView {
        ApiCallView {
            endpoint: Endpoint::UsersChangePassword,
            params: seq![("login"@, login), ("password"@, password)],
            context: "Error while changing user's password ["@ + login + "]."@,
        }
    }

    /// Sets the password of the caller's own account, which takes the old
    /// one.
    pub open spec fn change_own_password(login: Seq<char>, password: Seq<char>, previous: Seq<char>) -> ApiCallView {
        ApiCallView {
            endpoint: Endpoint::UsersChangePassword,
            params: seq![("login"@, login), ("password"@, password), ("previousPassword"@, previous)],
            context: "Error while changing user's password ["@ + login + "]."@,
        }
    }

    /// Lists the groups a user belongs to.
    pub open spec fn groups_of_user(login: Seq<char>) -> ApiCallView {
        ApiCallView {
            endpoint: Endpoint::UsersGroups,
            params: seq![("login"@, login)],
            context: "Cannot deserialize response retrieving groups of user ["@ + login + "]."@,
        }
    }

    /// Makes a user a member of a group.
    pub open spec fn add_member(login: Seq<char>, group: Seq<char>) -> ApiCallView {
        ApiCallView {
            endpoint: Endpoint::UserGroupsAddUser,
            params: seq![("login"@, login), ("name"@, group)],
            context: "Error while adding user ["@ + login + "] to group ["@ + group + "]."@,
        }
    }

    /// Ends the membership of a user in a group.
    pub open spec fn remove_member(login: Seq<char>, group: Seq<char>) -> ApiCallView {
        ApiCallView {
            endpoint: Endpoint::UserGroupsRemoveUser,
            params: seq![("login"@, login), ("name"@, group)],
            context: "Error while removing user ["@ + login + "] from user ["@ + group + "]."@,
        }
    }

    /// Mints an API token with this name for a user.
    pub open spec fn generate_token(login: Seq<char>, name: Seq<char>) -> ApiCallView {
        ApiCallView {
            endpoint: Endpoint::UserTokensGenerate,
            params: seq![("login"@, login), ("name"@, name)],
            context: "Error while generating user token ["@ + name + "]."@,
        }
    }
}

/// The value of the first pair with this key.
pub open spec fn first_value(params: Seq<(Seq<char>, Seq<char>)>, key: Seq<char>) -> Option<Seq<char>>
    decreases params.len(),
{
    if params.len() == 0 {
        None
    } else if params[0].0 == key {
        Some(params[0].1)
    } else {
        first_value(params.skip(1), key)
    }
}

impl ApiCall {
    pub fn set_setting(name: &str, value: &str) -> (call: ApiCall)
        ensures
            call@ == ApiCallView::set_setting(name@, value@),
    {
        let mut params: Vec<(String, String)> = Vec::new();
        params.push(param("key", name));
        params.push(param("value", value));
        assert(params.deep_view() =~= seq![("key"@, name@), ("value"@, value@)]);
        ApiCall { endpoint: Endpoint::SettingsSet, params, context: joined("Error while setting property [", name, "].") }
    }

    pub fn search_groups(name: &str) -> (call: ApiCall)
        ensures
            call@ == ApiCallView::search_groups(name@),
    {
        let mut params: Vec<(String, String)> = Vec::new();
        params.push(param("q", name));
        assert(params.deep_view() =~= seq![("q"@, name@)]);
        ApiCall { endpoint: Endpoint::UserGroupsSearch, params, context: String::from_str("Cannot deserialize response.") }
    }

    pub fn create_group(name: &str, description: &str) -> (call: ApiCall)
        ensures
            call@ == ApiCallView::create_group(name@, description@),
    {
        let mut params: Vec<(String, String)> = Vec::new();
        params.push(param("name", name));
        params.push(param("description", description));
        assert(params.deep_view() =~= seq![("name"@, name@), ("description"@, description@)]);
        ApiCall { endpoint: Endpoint::UserGroupsCreate, params, context: joined("Error while creating group [", name, "].") }
    }

    pub fn update_group(id: &str, name: &str, description: &str) -> (call: ApiCall)
        ensures
            call@ == ApiCallView::update_group(id@, name@, description@),
    {
        let mut params: Vec<(String, String)> = Vec::new();
        params.push(param("id", id));
        params.push(param("description", description));
        assert(params.deep_view() =~= seq![("id"@, id@), ("description"@, description@)]);
        ApiCall { endpoint: Endpoint::UserGroupsUpdate, params, context: joined("Error while updating group [", name, "].") }
    }

    pub fn search_templates(template: &str) -> (call: ApiCall)
        ensures
            call@ == ApiCallView::search_templates(template@),
    {
        let mut params: Vec<(String, String)> = Vec::new();
        params.push(param("q", template));
        assert(params.deep_view() =~= seq![("q"@, template@)]);
        ApiCall { endpoint: Endpoint::PermissionsSearchTemplates, params, context: String::from_str("Cannot deserialize permission templates.") }
    }

    pub fn bind_permission(group: &str, permission: &str, template: &str) -> (call: ApiCall)
        ensures
            call@ == ApiCallView::bind_permission(group@, permission@, template@),
    {
        let mut params: Vec<(String, String)> = Vec::new();
        params.push(param("groupName", group));
        params.push(param("permission", permission));
        params.push(param("templateId", template));
        assert(params.deep_view() =~= seq![("groupName"@, group@), ("permission"@, permission@), ("templateId"@, template@)]);
        ApiCall { endpoint: Endpoint::PermissionsAddGroupToTemplate, params, context: joined("Error while creating permission [", permission, "].") }
    }

    pub fn unbind_permission(group: &str, permission: &str, template: &str) -> (call: ApiCall)
        ensures
            call@ == ApiCallView::unbind_permission(group@, permission@, template@),
    {
        let mut params: Vec<(String, String)> = Vec::new();
        params.push(param("groupName", group));
        params.push(param("permission", permission));
        params.push(param("templateId", template));
        assert(params.deep_view() =~= seq![("groupName"@, group@), ("permission"@, permission@), ("templateId"@, template@)]);
        ApiCall { endpoint: Endpoint::PermissionsRemoveGroupFromTemplate, params, context: joined("Error while removing permission [", permission, "].") }
    }

    pub fn search_users(login: &str) -> (call: ApiCall)
        ensures
            call@ == ApiCallView::search_users(login@),
    {
        let mut params: Vec<(String, String)> = Vec::new();
        params.push(param("q", login));
        assert(params.deep_view() =~= seq![("q"@, login@)]);
        ApiCall { endpoint: Endpoint::UsersSearch, params, context: joined("Cannot deserialize response checking if login [", login, "] exists.") }
    }

    pub fn create_user(login: &str, name: &str, password: &str) -> (call: ApiCall)
        ensures
            call@ == ApiCallView::create_user(login@, name@, password@),
    {
        let mut params: Vec<(String, String)> = Vec::new();
        params.push(param("login", login));
        params.push(param("name", name));
        params.push(param("password", password));
        assert(params.deep_view() =~= seq![("login"@, login@), ("name"@, name@), ("password"@, password@)]);
        ApiCall { endpoint: Endpoint::UsersCreate, params, context: joined("Error while creating user [", login, "].") }
    }

    pub fn update_user(login: &str, name: &str) -> (call: ApiCall)
        ensures
            call@ == ApiCallView::update_user(login@, name@),
    {
        let mut params: Vec<(String, String)> = Vec::new();
        params.push(param("login", login));
        params.push(param("name", name));
        assert(params.deep_view() =~= seq![("login"@, login@), ("name"@, name@)]);
        ApiCall { endpoint: Endpoint::UsersUpdate, params, context: joined("Error while updating user [", login, "].") }
    }

    pub fn change_password(login: &str, password: &str) -> (call: ApiCall)
        ensures
            call@ == ApiCallView::change_password(login@, password@),
    {
        let mut params: Vec<(String, String)> = Vec::new();
        params.push(param("login", login));
        params.push(param("password", password));
        assert(params.deep_view() =~= seq![("login"@, login@), ("password"@, password@)]);
        ApiCall { endpoint: Endpoint::UsersChangePassword, params, context: joined("Error while changing user's password [", login, "].") }
    }

    pub fn change_own_password(login: &str, password: &str, previous: &str) -> (call: ApiCall)
        ensures
            call@ == ApiCallView::change_own_password(login@, password@, previous@),
    {
        let mut params: Vec<(String, String)> = Vec::new();
        params.push(param("login", login));
        params.push(param("password", password));
        params.push(param("previousPassword", previous));
        assert(params.deep_view() =~= seq![("login"@, login@), ("password"@, password@), ("previousPassword"@, previous@)]);
        ApiCall { endpoint: Endpoint::UsersChangePassword, params, context: joined("Error while changing user's password [", login, "].") }
    }

    pub fn groups_of_user(login: &str) -> (call: ApiCall)
        ensures
            call@ == ApiCallView::groups_of_user(login@),
    {
        let mut params: Vec<(String, String)> = Vec::new();
        params.push(param("login", login));
        assert(params.deep_view() =~= seq![("login"@, login@)]);
        ApiCall { endpoint: Endpoint::UsersGroups, params, context: joined("Cannot deserialize response retrieving groups of user [", login, "].") }
    }

    pub fn add_member(login: &str, group: &str) -> (call: ApiCall)
        ensures
            call@ == ApiCallView::add_member(login@, group@),
    {
        let mut params: Vec<(String, String)> = Vec::new();
        params.push(param("login", login));
        params.push(param("name", group));
        assert(params.deep_view() =~= seq![("login"@, login@), ("name"@, group@)]);
        ApiCall { endpoint: Endpoint::UserGroupsAddUser, params, context: joined(joined("Error while adding user [", login, "] to group [").as_str(), group, "].") }
    }

    pub fn remove_member(login: &str, group: &str) -> (call: ApiCall)
        ensures
            call@ == ApiCallView::remove_member(login@, group@),
    {
        let mut params: Vec<(String, String)> = Vec::new();
        params.push(param("login", login));
        params.push(param("name", group));
        assert(params.deep_view() =~= seq![("login"@, login@), ("name"@, group@)]);
        ApiCall { endpoint: Endpoint::UserGroupsRemoveUser, params, context: joined(joined("Error while removing user [", login, "] from user [").as_str(), group, "].") }
    }

    pub fn generate_token(login: &str, name: &str) -> (call: ApiCall)
        ensures
            call@ == ApiCallView::generate_token(login@, name@),
    {
        let mut params: Vec<(String, String)> = Vec::new();
        params.push(param("login", login));
        params.push(param("name", name));
        assert(params.deep_view() =~= seq![("login"@, login@), ("name"@, name@)]);
        ApiCall { endpoint: Endpoint::UserTokensGenerate, params, context: joined("Error while generating user token [", name, "].") }
    }
}

/// The keys of the parameters differ from one another.
pub proof fn lemma_keys_differ()
    ensures
        "groupName"@ != "permission"@,
        "groupName"@ != "templateId"@,
        "id"@ != "description"@,
        "key"@ != "value"@,
        "login"@ != "name"@,
        "login"@ != "password"@,
        "login"@ != "previousPassword"@,
        "name"@ != "description"@,
        "name"@ != "password"@,
        "password"@ != "previousPassword"@,
        "permission"@ != "templateId"@,
{
    reveal_strlit("description");
    reveal_strlit("groupName");
    reveal_strlit("id");
    reveal_strlit("key");
    reveal_strlit("login");
    reveal_strlit("name");
    reveal_strlit("password");
    reveal_strlit("permission");
    reveal_strlit("previousPassword");
    reveal_strlit("templateId");
    reveal_strlit("value");
    assert("groupName"@.len() != "permission"@.len());
    assert("groupName"@.len() != "templateId"@.len());
    assert("id"@.len() != "description"@.len());
    assert("key"@.len() != "value"@.len());
    assert("login"@.len() != "name"@.len());
    assert("login"@.len() != "password"@.len());
    assert("login"@.len() != "previousPassword"@.len());
    assert("name"@.len() != "description"@.len());
    assert("name"@.len() != "password"@.len());
    assert("password"@.len() != "previousPassword"@.len());
    assert("permission"@[0] != "templateId"@[0]);
}

/// Each parameter of a call can be read back by its key.
pub proof fn lemma_params_read_back(first: Seq<char>, second: Seq<char>, third: Seq<char>)
    ensures
        ApiCallView::set_setting(first, second).value_of("key"@) == Some(first),
        ApiCallView::set_setting(first, second).value_of("value"@) == Some(second),
        ApiCallView::create_group(first, second).value_of("name"@) == Some(first),
        ApiCallView::create_group(first, second).value_of("description"@) == Some(second),
        ApiCallView::update_group(first, second, third).value_of("id"@) == Some(first),
        ApiCallView::update_group(first, second, third).value_of("description"@) == Some(third),
        ApiCallView::bind_permission(first, second, third).value_of("groupName"@) == Some(first),
        ApiCallView::bind_permission(first, second, third).value_of("permission"@) == Some(second),
        ApiCallView::bind_permission(first, second, third).value_of("templateId"@) == Some(third),
        ApiCallView::unbind_permission(first, second, third).value_of("groupName"@) == Some(first),
        ApiCallView::unbind_permission(first, second, third).value_of("permission"@) == Some(second),
        ApiCallView::unbind_permission(first, second, third).value_of("templateId"@) == Some(third),
        ApiCallView::create_user(first, second, third).value_of("login"@) == Some(first),
        ApiCallView::create_user(first, second, third).value_of("name"@) == Some(second),
        ApiCallView::create_user(first, second, third).value_of("password"@) == Some(third),
        ApiCallView::update_user(first, second).value_of("login"@) == Some(first),
        ApiCallView::update_user(first, second).value_of("name"@) == Some(second),
        ApiCallView::change_password(first, second).value_of("login"@) == Some(first),
        ApiCallView::change_password(first, second).value_of("password"@) == Some(second),
        ApiCallView::change_own_password(first, second, third).value_of("login"@) == Some(first),
        ApiCallView::change_own_password(first, second, third).value_of("password"@) == Some(second),
        ApiCallView::change_own_password(first, second, third).value_of("previousPassword"@) == Some(third),
        ApiCallView::add_member(first, second).value_of("login"@) == Some(first),
        ApiCallView::add_member(first, second).value_of("name"@) == Some(second),
        ApiCallView::remove_member(first, second).value_of("login"@) == Some(first),
        ApiCallView::remove_member(first, second).value_of("name"@) == Some(second),
{
    lemma_keys_differ();
    reveal_with_fuel(first_value, 4);
    assert(ApiCallView::set_setting(first, second).params.skip(1) =~= ApiCallView::set_setting(first, second).params.subrange(1, 2));
    assert(ApiCallView::create_group(first, second).params.skip(1) =~= ApiCallView::create_group(first, second).params.subrange(1, 2));
    assert(ApiCallView::update_group(first, second, third).params.skip(1) =~= ApiCallView::update_group(first, second, third).params.subrange(1, 2));
    assert(ApiCallView::bind_permission(first, second, third).params.skip(1) =~= ApiCallView::bind_permission(first, second, third).params.subrange(1, 3));
    assert(ApiCallView::bind_permission(first, second, third).params.skip(1).skip(1) =~= ApiCallView::bind_permission(first, second, third).params.subrange(2, 3));
    assert(ApiCallView::unbind_permission(first, second, third).params.skip(1) =~= ApiCallView::unbind_permission(first, second, third).params.subrange(1, 3));
    assert(ApiCallView::unbind_permission(first, second, third).params.skip(1).skip(1) =~= ApiCallView::unbind_permission(first, second, third).params.subrange(2, 3));
    assert(ApiCallView::create_user(first, second, third).params.skip(1) =~= ApiCallView::create_user(first, second, third).params.subrange(1, 3));
    assert(ApiCallView::create_user(first, second, third).params.skip(1).skip(1) =~= ApiCallView::create_user(first, second, third).params.subrange(2, 3));
    assert(ApiCallView::update_user(first, second).params.skip(1) =~= ApiCallView::update_user(first, second).params.subrange(1, 2));
    assert(ApiCallView::change_password(first, second).params.skip(1) =~= ApiCallView::change_password(first, second).params.subrange(1, 2));
    assert(ApiCallView::change_own_password(first, second, third).params.skip(1) =~= ApiCallView::change_own_password(first, second, third).params.subrange(1, 3));
    assert(ApiCallView::change_own_password(first, second, third).params.skip(1).skip(1) =~= ApiCallView::change_own_password(first, second, third).params.subrange(2, 3));
    assert(ApiCallView::add_member(first, second).params.skip(1) =~= ApiCallView::add_member(first, second).params.subrange(1, 2));
    assert(ApiCallView::remove_member(first, second).params.skip(1) =~= ApiCallView::remove_member(first, second).params.subrange(1, 2));
}

} // verus!
