//! The configuration document as written by the operator, before any variable
//! has been substituted.

use vstd::prelude::*;

verus! {

/// The whole document. Every section is optional.
#[derive(Debug, Clone)]
pub struct ConfigurationFile {
    pub admin: Option<Admin>,
    pub properties: Option<Vec<Property>>,
    pub users: Option<Vec<User>>,
    pub groups: Option<Vec<Group>>,
}

/// The administrator section.
#[derive(Debug, Clone)]
pub struct Admin {
    pub password: Option<String>,
}

/// One server setting.
#[derive(Debug, Clone)]
pub struct Property {
    pub name: String,
    pub value: String,
}

/// One user account.
#[derive(Debug, Clone)]
pub struct User {
    pub name: String,
    pub login: String,
    pub password: String,
    pub groups: Option<Vec<String>>,
}

/// One group with the complete list of permissions it should hold.
#[derive(Debug, Clone)]
pub struct Group {
    pub name: String,
    pub description: String,
    pub permissions: Vec<String>,
}

} // verus!
