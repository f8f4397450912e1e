//! Endpoints for administrators.

use crate::db::models::NewDeveloper;
use crate::util::uuid::Uuid;
use vstd::prelude::*;
use vstd::string::StringExecFns;

verus! {

#[derive(Debug)]
pub struct NewDeveloperParams {
    pub name: String,
    pub email: String,
    pub url: Option<String>,
}

#[derive(Debug)]
pub struct NewDeveloperResponse {
    pub developer_uuid: Uuid,
    pub api_key: String,
}

/// The developer that an administrator asks to create: no administrator,
/// under the UUID and with the API key that were drawn for it.
pub fn new_developer(
    params: NewDeveloperParams,
    developer_uuid: Uuid,
    api_key: String,
) -> (developer: NewDeveloper)
    ensures
        developer == (NewDeveloper {
            developer_uuid,
            name: params.name,
            email: params.email,
            url: params.url,
            is_admin: false,
            api_key: Some(api_key),
        }),
{
    NewDeveloper {
        developer_uuid,
        name: params.name,
        email: params.email,
        url: params.url,
        is_admin: false,
        api_key: Some(api_key),
    }
}

/// The developer that seeding the database creates: the system's
/// administrator.
pub fn initial_admin(developer_uuid: Uuid, api_key: String) -> (developer: NewDeveloper)
    ensures
        developer.developer_uuid == developer_uuid,
        developer.name@ == "System Administrator"@,
        developer.email@ == "admin@example.com"@,
        developer.url is None,
        developer.is_admin,
        developer.api_key == Some(api_key),
{
    NewDeveloper {
        developer_uuid,
        name: String::from_str("System Administrator"),
        email: String::from_str("admin@example.com"),
        url: None,
        is_admin: true,
        api_key: Some(api_key),
    }
}

/// What is answered of a developer that was created, if it has an API key.
pub fn created_developer(developer: NewDeveloper) -> (response: Option<NewDeveloperResponse>)
    ensures
        response == match developer.api_key {
            Some(api_key) => Some(
                NewDeveloperResponse { developer_uuid: developer.developer_uuid, api_key },
            ),
            None => None,
        },
{
    match developer.api_key {
        Some(api_key) => Some(
            NewDeveloperResponse { developer_uuid: developer.developer_uuid, api_key },
        ),
        None => None,
    }
}

} // verus!
