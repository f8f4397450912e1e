//! Who may see what: objects that a developer owns, and what is shown of
//! them.

use crate::db::models::{Developer, NewDeveloper};
use crate::server::auth::DeveloperUser;
use crate::server::error::messages;
use crate::server::error::{ApiError, Status};
use crate::util::uuid::Uuid;
use vstd::prelude::*;
use vstd::std_specs::convert::FromSpecImpl;

verus! {

/// Trait for objects which have a developer that owns them.
///
/// Useful implementors:
///
/// * A [`Developer`] owns himself.
///
/// * A [`Uuid`] is owned by the developer it refers to.
///
/// * Any type `T` can be tagged with a developer [`Uuid`], so that the tuple
///   `(T, Uuid)` is considered owned.
pub trait DeveloperOwned: Sized {
    /// The UUID of the developer who owns the object.
    spec fn owner(&self) -> Uuid;

    fn get_developer_uuid(&self) -> (uuid: &Uuid)
        ensures
            *uuid == self.owner(),
    ;

    /// Check permissions of the requesting user. If the requesting user is
    /// an administrator, then they have full permission to access any
    /// object. Otherwise, the user is only given permission if they are the
    /// owner of the object.
    fn check_permission(object: Option<Self>, requesting_user: &DeveloperUser) -> (permitted:
        Result<Self, ApiError>)
        ensures
            match permitted {
                Ok(found) => object == Some(found) && access(Some(found.owner()), *requesting_user)
                    is Ok,
                Err(error) => access(
                    match object {
                        Some(found) => Some(found.owner()),
                        None => None,
                    },
                    *requesting_user,
                ) == Err::<(), (Status, Seq<char>)>(error@),
            },
    {
        if requesting_user.is_admin() {
            return match object {
                Some(object) => Ok(object),
                None => Err(ApiError::not_found()),
            };
        }
        if let Some(object) = object {
            if requesting_user.user_uuid().value == object.get_developer_uuid().value {
                return Ok(object);
            }
        }
        Err(ApiError::forbidden())
    }
}

/// What checking a user's permission comes to, on an object with the given
/// owner or on none.
///
/// An administrator gets any object that exists, and is answered that an
/// object is not found where there is none. Anyone else gets an object that
/// exists and is their own, and is answered that access is forbidden for
/// any other object, and also where there is none, so that the answer does
/// not tell whether an object exists.
pub open spec fn access(owner: Option<Uuid>, user: DeveloperUser) -> Result<
    (),
    (Status, Seq<char>),
> {
    if user.admin() {
        match owner {
            Some(_) => Ok(()),
            None => Err((Status::NotFound, messages::NOT_FOUND@)),
        }
    } else {
        match owner {
            Some(uuid) if uuid == user.claim().sub => Ok(()),
            _ => Err((Status::Forbidden, messages::FORBIDDEN@)),
        }
    }
}

/// Extension trait for `Option<T>` where `T` implements [`DeveloperOwned`].
pub trait DeveloperOwnedExt: Sized {
    type Target: DeveloperOwned;

    /// The object that the option holds, if it holds one.
    spec fn held(self) -> Option<Self::Target>;

    fn check_permission(self, requesting_user: &DeveloperUser) -> (permitted: Result<
        Self::Target,
        ApiError,
    >)
        ensures
            match permitted {
                Ok(found) => self.held() == Some(found) && access(
                    Some(found.owner()),
                    *requesting_user,
                ) is Ok,
                Err(error) => access(
                    match self.held() {
                        Some(found) => Some(found.owner()),
                        None => None,
                    },
                    *requesting_user,
                ) == Err::<(), (Status, Seq<char>)>(error@),
            },
    ;
}

impl DeveloperOwned for Developer {
    open spec fn owner(&self) -> Uuid {
        self.developer_uuid
    }

    fn get_developer_uuid(&self) -> (uuid: &Uuid) {
        &self.developer_uuid
    }
}

impl DeveloperOwned for Uuid {
    open spec fn owner(&self) -> Uuid {
        *self
    }

    fn get_developer_uuid(&self) -> (uuid: &Uuid) {
        self
    }
}

impl<T> DeveloperOwned for (T, Uuid) {
    open spec fn owner(&self) -> Uuid {
        self.1
    }

    fn get_developer_uuid(&self) -> (uuid: &Uuid) {
        &self.1
    }
}

impl<T: DeveloperOwned + Sized> DeveloperOwnedExt for Option<T> {
    type Target = T;

    open spec fn held(self) -> Option<T> {
        self
    }

    fn check_permission(self, requesting_user: &DeveloperUser) -> (permitted: Result<T, ApiError>) {
        T::check_permission(self, requesting_user)
    }
}

#[derive(Debug)]
pub struct DeveloperResponse {
    pub developer_uuid: Uuid,
    pub name: String,
    pub email: String,
    pub url: Option<String>,
    pub is_admin: bool,
    /// The API key is only supplied upon initial user creation and cannot be
    /// recovered after the fact.
    pub api_key: Option<String>,
}

#[derive(Debug)]
pub struct NewGameDao {
    /// Non-admin users can only create games belonging to themselves. If you
    /// are not an admin, then `developer_uuid` must be your own UUID.
    pub developer_uuid: Uuid,
    pub name: String,
    /// The lowest ordinal of a security level that the game accepts; the
    /// highest level where none is given.
    pub security_level: Option<i32>,
}

#[derive(Debug)]
pub struct GameResponse {
    /// The developer who owns this game.
    pub developer_uuid: Uuid,
    pub game_uuid: Uuid,
    pub name: String,
    /// The game's secret key is only supplied upon initial game creation and
    /// cannot be recovered after the fact.
    pub game_secret_key: Option<String>,
    pub security_level: i32,
}

#[derive(Debug)]
pub struct NewHighscoreTableDao {
    /// The game that this table belongs to.
    pub game_uuid: Uuid,
    pub name: String,
    /// Maximum number of scores retained by this highscore table. Omit to
    /// keep all scores. Administrators may choose to limit the maximum value
    /// of this field.
    pub maximum_scores_retained: Option<i32>,
}

#[derive(Debug)]
pub struct HighscoreTableResponse {
    /// The game that this table belongs to.
    pub game_uuid: Uuid,
    pub table_uuid: Uuid,
    pub name: String,
    /// The maximum number of scores retained by this highscore table. If
    /// this field is `None`, then there is no limit.
    pub maximum_scores_retained: Option<i32>,
}

impl DeveloperResponse {
    /// Removes the API key from the response.
    pub fn without_api_key(self) -> (response: Self)
        ensures
            response == (DeveloperResponse { api_key: None, ..self }),
    {
        let mut response = self;
        response.api_key = None;
        response
    }
}

impl GameResponse {
    /// Removes the secret key from the response.
    pub fn without_secret_key(self) -> (response: Self)
        ensures
            response == (GameResponse { game_secret_key: None, ..self }),
    {
        let mut response = self;
        response.game_secret_key = None;
        response
    }
}

impl From<Developer> for DeveloperResponse {
    fn from(d: Developer) -> (response: Self) {
        Self {
            developer_uuid: d.developer_uuid,
            name: d.name,
            email: d.email,
            url: d.url,
            is_admin: d.is_admin,
            api_key: d.api_key,
        }
    }
}

impl FromSpecImpl<Developer> for DeveloperResponse {
    open spec fn obeys_from_spec() -> bool {
        true
    }

    open spec fn from_spec(d: Developer) -> Self {
        DeveloperResponse {
            developer_uuid: d.developer_uuid,
            name: d.name,
            email: d.email,
            url: d.url,
            is_admin: d.is_admin,
            api_key: d.api_key,
        }
    }
}

impl From<NewDeveloper> for DeveloperResponse {
    fn from(d: NewDeveloper) -> (response: Self) {
        Self {
            developer_uuid: d.developer_uuid,
            name: d.name,
            email: d.email,
            url: d.url,
            is_admin: d.is_admin,
            api_key: d.api_key,
        }
    }
}

impl FromSpecImpl<NewDeveloper> for DeveloperResponse {
    open spec fn obeys_from_spec() -> bool {
        true
    }

    open spec fn from_spec(d: NewDeveloper) -> Self {
        DeveloperResponse {
            developer_uuid: d.developer_uuid,
            name: d.name,
            email: d.email,
            url: d.url,
            is_admin: d.is_admin,
            api_key: d.api_key,
        }
    }
}

/// Whether a user may create a game for a developer: an administrator for
/// anyone, anyone else only for themselves.
pub fn may_create_game_for(requesting_user: &DeveloperUser, developer_uuid: &Uuid) -> (allowed:
    bool)
    ensures
        allowed == (requesting_user.admin() || *developer_uuid == requesting_user.claim().sub),
{
    requesting_user.is_admin() || developer_uuid.value == requesting_user.user_uuid().value
}

} // verus!
