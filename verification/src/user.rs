//! User records and their DTOs.
//!
//! Account timestamps are carried as milliseconds since the epoch;
//! registration supplies the instant, and a fresh account starts
//! inactive and unprivileged.

use vstd::prelude::*;

use crate::deep_clone::{DeepClone, Reshape};
use crate::entity::{CreateDto, Entity, ReadDto, Selector, UpdateDto};

verus! {

/// Mathematical model of a user record.
pub struct UserView {
    pub id: Option<Seq<char>>,
    pub username: Seq<char>,
    pub email: Seq<char>,
    pub password: Seq<char>,
    pub is_active: bool,
    pub is_staff: bool,
    pub is_superuser: bool,
    pub images: Option<Seq<char>>,
    pub bio: Option<Seq<char>>,
    pub birth_date: Option<i64>,
    pub created_at: i64,
    pub updated_at: i64,
    pub last_online: i64,
}

/// A user record.
#[derive(Debug, Clone, PartialEq, Eq)]
pub struct User {
    pub id: Option<String>,
    pub username: String,
    pub email: String,
    pub password: String,
    pub is_active: bool,
    pub is_staff: bool,
    pub is_superuser: bool,
    pub images: Option<String>,
    pub bio: Option<String>,
    pub birth_date: Option<i64>,
    pub created_at: i64,
    pub updated_at: i64,
    pub last_online: i64,
}

impl DeepView for User {
    type V = UserView;

    open spec fn deep_view(&self) -> UserView {
        UserView {
            id: self.id.deep_view(),
            username: self.username.deep_view(),
            email: self.email.deep_view(),
            password: self.password.deep_view(),
            is_active: self.is_active,
            is_staff: self.is_staff,
            is_superuser: self.is_superuser,
            images: self.images.deep_view(),
            bio: self.bio.deep_view(),
            birth_date: self.birth_date.deep_view(),
            created_at: self.created_at,
            updated_at: self.updated_at,
            last_online: self.last_online,
        }
    }
}

impl DeepClone for User {
    fn deep_clone(&self) -> (r: Self)
        ensures
            r.deep_view() == self.deep_view(),
    {
        User {
            id: self.id.deep_clone(),
            username: self.username.deep_clone(),
            email: self.email.deep_clone(),
            password: self.password.deep_clone(),
            is_active: self.is_active,
            is_staff: self.is_staff,
            is_superuser: self.is_superuser,
            images: self.images.deep_clone(),
            bio: self.bio.deep_clone(),
            birth_date: self.birth_date,
            created_at: self.created_at,
            updated_at: self.updated_at,
            last_online: self.last_online,
        }
    }
}

impl Entity for User {
    open spec fn model_id(m: UserView) -> Option<Seq<char>> {
        m.id
    }

    open spec fn model_with_id(m: UserView, id: Option<Seq<char>>) -> UserView {
        UserView { id, ..m }
    }

    proof fn lemma_model_with_id(m: UserView, id: Option<Seq<char>>) {
    }

    fn id(&self) -> (r: Option<String>) {
        self.id.deep_clone()
    }

    fn with_id(self, id: Option<String>) -> (r: Self) {
        User { id, ..self }
    }
}

/// Read DTO of a user: the record as exposed externally.
#[derive(Debug, Clone, PartialEq, Eq)]
pub struct UserDto {
    pub id: Option<String>,
    pub username: String,
    pub email: String,
    pub password: String,
    pub is_active: bool,
    pub is_staff: bool,
    pub is_superuser: bool,
    pub images: Option<String>,
    pub bio: Option<String>,
    pub birth_date: Option<i64>,
    pub created_at: i64,
    pub updated_at: i64,
    pub last_online: i64,
}

impl DeepView for UserDto {
    type V = UserView;

    open spec fn deep_view(&self) -> UserView {
        UserView {
            id: self.id.deep_view(),
            username: self.username.deep_view(),
            email: self.email.deep_view(),
            password: self.password.deep_view(),
            is_active: self.is_active,
            is_staff: self.is_staff,
            is_superuser: self.is_superuser,
            images: self.images.deep_view(),
            bio: self.bio.deep_view(),
            birth_date: self.birth_date.deep_view(),
            created_at: self.created_at,
            updated_at: self.updated_at,
            last_online: self.last_online,
        }
    }
}

impl ReadDto<User> for UserDto {
    open spec fn of_model(m: UserView) -> UserView {
        m
    }

    fn of_entity(e: &User) -> (r: Self) {
        UserDto {
            id: e.id.deep_clone(),
            username: e.username.deep_clone(),
            email: e.email.deep_clone(),
            password: e.password.deep_clone(),
            is_active: e.is_active,
            is_staff: e.is_staff,
            is_superuser: e.is_superuser,
            images: e.images.deep_clone(),
            bio: e.bio.deep_clone(),
            birth_date: e.birth_date,
            created_at: e.created_at,
            updated_at: e.updated_at,
            last_online: e.last_online,
        }
    }
}

/// Create DTO of a user: external input for a new record; the identifier is left for storage to assign.
#[derive(Debug, Clone, PartialEq, Eq)]
pub struct RegisterUserDto {
    pub username: String,
    pub email: String,
    pub password: String,
    pub images: Option<String>,
    pub bio: Option<String>,
    pub birth_date: Option<i64>,
    pub registered_at: i64,
}

impl CreateDto<User> for RegisterUserDto {
    open spec fn entity_model(&self) -> UserView {
        UserView {
            id: None,
            username: self.username.deep_view(),
            email: self.email.deep_view(),
            password: self.password.deep_view(),
            is_active: false,
            is_staff: false,
            is_superuser: false,
            images: self.images.deep_view(),
            bio: self.bio.deep_view(),
            birth_date: self.birth_date.deep_view(),
            created_at: self.registered_at,
            updated_at: self.registered_at,
            last_online: self.registered_at,
        }
    }

    fn into_entity(self) -> (e: User) {
        User {
            id: None,
            username: self.username,
            email: self.email,
            password: self.password,
            is_active: false,
            is_staff: false,
            is_superuser: false,
            images: self.images,
            bio: self.bio,
            birth_date: self.birth_date,
            created_at: self.registered_at,
            updated_at: self.registered_at,
            last_online: self.registered_at,
        }
    }
}

/// Update DTO of a user: every field optional, absence meaning
/// "leave unchanged".
#[derive(Debug, Clone, PartialEq, Eq)]
pub struct UpdateUserDto {
    pub username: Option<String>,
    pub email: Option<String>,
    pub password: Option<String>,
    pub is_active: Option<bool>,
    pub is_staff: Option<bool>,
    pub is_superuser: Option<bool>,
    pub images: Option<String>,
    pub bio: Option<String>,
    pub birth_date: Option<i64>,
}

impl UpdateDto<User> for UpdateUserDto {
    open spec fn merged(&self, m: UserView) -> UserView {
        UserView {
            id: m.id,
            username: if self.username is Some {
                (self.username->0)@
            } else {
                m.username
            },
            email: if self.email is Some {
                (self.email->0)@
            } else {
                m.email
            },
            password: if self.password is Some {
                (self.password->0)@
            } else {
                m.password
            },
            is_active: if self.is_active is Some {
                self.is_active->0
            } else {
                m.is_active
            },
            is_staff: if self.is_staff is Some {
                self.is_staff->0
            } else {
                m.is_staff
            },
            is_superuser: if self.is_superuser is Some {
                self.is_superuser->0
            } else {
                m.is_superuser
            },
            images: if self.images is Some {
                Some((self.images->0)@)
            } else {
                m.images
            },
            bio: if self.bio is Some {
                Some((self.bio->0)@)
            } else {
                m.bio
            },
            birth_date: if self.birth_date is Some {
                Some(self.birth_date->0)
            } else {
                m.birth_date
            },
            created_at: m.created_at,
            updated_at: m.updated_at,
            last_online: m.last_online,
        }
    }

    proof fn lemma_merged_id(&self, m: UserView) {
    }

    fn apply(&self, e: &User) -> (r: User) {
        User {
            id: e.id.deep_clone(),
            username: match &self.username {
                Some(v) => v.deep_clone(),
                None => e.username.deep_clone(),
            },
            email: match &self.email {
                Some(v) => v.deep_clone(),
                None => e.email.deep_clone(),
            },
            password: match &self.password {
                Some(v) => v.deep_clone(),
                None => e.password.deep_clone(),
            },
            is_active: match &self.is_active {
                Some(v) => *v,
                None => e.is_active,
            },
            is_staff: match &self.is_staff {
                Some(v) => *v,
                None => e.is_staff,
            },
            is_superuser: match &self.is_superuser {
                Some(v) => *v,
                None => e.is_superuser,
            },
            images: match &self.images {
                Some(v) => Some(v.deep_clone()),
                None => e.images.deep_clone(),
            },
            bio: match &self.bio {
                Some(v) => Some(v.deep_clone()),
                None => e.bio.deep_clone(),
            },
            birth_date: match &self.birth_date {
                Some(v) => Some(*v),
                None => e.birth_date,
            },
            created_at: e.created_at,
            updated_at: e.updated_at,
            last_online: e.last_online,
        }
    }
}

/// Equality conditions on a user fields; a record matches when
/// every present condition holds, as with the storage engine's
/// field-value filter documents.
#[derive(Debug, Clone, PartialEq, Eq)]
pub struct UserFilter {
    pub username: Option<String>,
    pub email: Option<String>,
}

impl Selector<User> for UserFilter {
    open spec fn selects(&self, m: UserView) -> bool {
        &&& (self.username is Some ==> m.username == (self.username->0)@)
        &&& (self.email is Some ==> m.email == (self.email->0)@)
    }

    fn test(&self, e: &User) -> (b: bool) {
        let username_ok = match &self.username {
            Some(v) => e.username == *v,
            None => true,
        };
        let email_ok = match &self.email {
            Some(v) => e.email == *v,
            None => true,
        };
        username_ok && email_ok
    }
}

/// Mathematical model of credentials presented at login.
pub struct LoginDtoView {
    pub username: Seq<char>,
    pub password: Seq<char>,
}

/// Credentials presented at login.
#[derive(Debug, Clone, PartialEq, Eq)]
pub struct LoginDto {
    pub username: String,
    pub password: String,
}

impl DeepView for LoginDto {
    type V = LoginDtoView;

    open spec fn deep_view(&self) -> LoginDtoView {
        LoginDtoView {
            username: self.username.deep_view(),
            password: self.password.deep_view(),
        }
    }
}

impl DeepClone for LoginDto {
    fn deep_clone(&self) -> (r: Self)
        ensures
            r.deep_view() == self.deep_view(),
    {
        LoginDto {
            username: self.username.deep_clone(),
            password: self.password.deep_clone(),
        }
    }
}


impl User {
    /// Build a user record: identifier unset, and every account
    /// timestamp (created, updated, last online) at the given
    /// instant.
    pub fn new(
        username: String,
        email: String,
        password: String,
        is_active: bool,
        is_staff: bool,
        is_superuser: bool,
        images: Option<String>,
        bio: Option<String>,
        birth_date: Option<i64>,
        now: i64,
    ) -> (r: Self)
        ensures
            r.id is None,
            r.username == username,
            r.email == email,
            r.password == password,
            r.is_active == is_active,
            r.is_staff == is_staff,
            r.is_superuser == is_superuser,
            r.images == images,
            r.bio == bio,
            r.birth_date == birth_date,
            r.created_at == now,
            r.updated_at == now,
            r.last_online == now,
    {
        User {
            id: None,
            username,
            email,
            password,
            is_active,
            is_staff,
            is_superuser,
            images,
            bio,
            birth_date,
            created_at: now,
            updated_at: now,
            last_online: now,
        }
    }
}

} // verus!
