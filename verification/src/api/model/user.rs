//! Users, as requests name them and responses show them.
use vstd::prelude::*;
use vstd::std_specs::convert::FromSpec;
use crate::error::{AppError, InvalidField};
use crate::kernel::model::id::UserId;
use crate::kernel::model::role::Role;
use crate::kernel::model::user::{CreateUser, UpdateUserPassword, UpdateUserRole, User};

verus! {

/// Whether `garde::rules::email::parse_email` accepts the address.
pub uninterp spec fn email_is_well_formed(address: Seq<char>) -> bool;

/// Tells whether an email address is well formed.
///
/// Calls `garde::rules::email::parse_email`, which holds the address against
/// fixed patterns for the part before and the part behind the `@`. Its
/// answer depends on the address alone, so the contract gives that answer a
/// name; it also states the one case that the function decides first: an
/// empty address is refused.
#[verifier::external_body]
fn is_email(address: &str) -> (accepted: bool)
    ensures
        accepted == email_is_well_formed(address@),
        address@.len() == 0 ==> !accepted,
{
    garde::rules::email::parse_email(address).is_ok()
}

/// The name of a role.
#[derive(Clone, Copy, Debug, PartialEq, Eq, Structural)]
pub enum RoleName {
    Admin,
    User,
}

impl From<Role> for RoleName {
    fn from(value: Role) -> (name: RoleName) {
        match value {
            Role::Admin => Self::Admin,
            Role::User => Self::User,
        }
    }
}

impl vstd::std_specs::convert::FromSpecImpl<Role> for RoleName {
    open spec fn obeys_from_spec() -> bool {
        true
    }

    open spec fn from_spec(value: Role) -> RoleName {
        match value {
            Role::Admin => RoleName::Admin,
            Role::User => RoleName::User,
        }
    }
}

impl From<RoleName> for Role {
    fn from(value: RoleName) -> (role: Role) {
        match value {
            RoleName::Admin => Self::Admin,
            RoleName::User => Self::User,
        }
    }
}

impl vstd::std_specs::convert::FromSpecImpl<RoleName> for Role {
    open spec fn obeys_from_spec() -> bool {
        true
    }

    open spec fn from_spec(value: RoleName) -> Role {
        match value {
            RoleName::Admin => Role::Admin,
            RoleName::User => Role::User,
        }
    }
}

/// A role and its name stand for each other: naming a role and reading the
/// name back gives the role, and the other way round.
pub proof fn lemma_role_names_are_roles(role: Role, name: RoleName)
    ensures
        Role::from_spec(RoleName::from_spec(role)) == role,
        RoleName::from_spec(Role::from_spec(name)) == name,
{
}

/// A listing of users.
#[derive(Debug, PartialEq, Eq)]
pub struct UsersResponse {
    pub items: Vec<UserReponse>,
}

/// A user.
#[derive(Debug, PartialEq, Eq)]
pub struct UserReponse {
    pub id: UserId,
    pub name: String,
    pub email: String,
    pub role: RoleName,
}

impl From<User> for UserReponse {
    fn from(value: User) -> (response: UserReponse) {
        let User { id, name, email, role } = value;
        Self { id, name, email, role: RoleName::from(role) }
    }
}

impl vstd::std_specs::convert::FromSpecImpl<User> for UserReponse {
    open spec fn obeys_from_spec() -> bool {
        true
    }

    open spec fn from_spec(value: User) -> UserReponse {
        UserReponse {
            id: value.id,
            name: value.name,
            email: value.email,
            role: match value.role {
                Role::Admin => RoleName::Admin,
                Role::User => RoleName::User,
            },
        }
    }
}

/// Asks to replace the password of the user who asks.
#[derive(Debug, PartialEq, Eq)]
pub struct UpdateUserPasswordRequest {
    pub current_password: String,
    pub new_password: String,
}

impl UpdateUserPasswordRequest {
    /// The part of the request that breaks a rule, if any: neither password
    /// may be empty.
    pub open spec fn fault(self) -> Option<InvalidField> {
        if self.current_password@.len() == 0 {
            Some(InvalidField::CurrentPassword)
        } else if self.new_password@.len() == 0 {
            Some(InvalidField::NewPassword)
        } else {
            None
        }
    }

    /// Checks the request. The error names the first part that breaks its
    /// rule.
    pub fn validate(&self) -> (result: Result<(), AppError>)
        ensures
            result == match self.fault() {
                Some(field) => Err::<(), AppError>(AppError::ValidationError(field)),
                None => Ok::<(), AppError>(()),
            },
    {
        if self.current_password.as_str().is_empty() {
            Err(AppError::ValidationError(InvalidField::CurrentPassword))
        } else if self.new_password.as_str().is_empty() {
            Err(AppError::ValidationError(InvalidField::NewPassword))
        } else {
            Ok(())
        }
    }
}

/// A password request together with the user who sent it.
#[derive(Debug, PartialEq, Eq)]
pub struct UpdateUserPasswordRequestWithUserId(pub UserId, pub UpdateUserPasswordRequest);

impl UpdateUserPasswordRequestWithUserId {
    pub fn new(user_id: UserId, request: UpdateUserPasswordRequest) -> (with_id: Self)
        ensures
            with_id == UpdateUserPasswordRequestWithUserId(user_id, request),
    {
        UpdateUserPasswordRequestWithUserId(user_id, request)
    }
}

impl From<UpdateUserPasswordRequestWithUserId> for UpdateUserPassword {
    fn from(value: UpdateUserPasswordRequestWithUserId) -> (event: UpdateUserPassword) {
        let UpdateUserPasswordRequestWithUserId(
            user_id,
            UpdateUserPasswordRequest { current_password, new_password },
        ) = value;
        UpdateUserPassword { user_id, current_password, new_password }
    }
}

impl vstd::std_specs::convert::FromSpecImpl<UpdateUserPasswordRequestWithUserId> for UpdateUserPassword {
    open spec fn obeys_from_spec() -> bool {
        true
    }

    open spec fn from_spec(value: UpdateUserPasswordRequestWithUserId) -> UpdateUserPassword {
        UpdateUserPassword {
            user_id: value.0,
            current_password: value.1.current_password,
            new_password: value.1.new_password,
        }
    }
}

/// Asks to register a user.
#[derive(Debug, PartialEq, Eq)]
pub struct CreateUserRequest {
    pub name: String,
    pub email: String,
    pub password: String,
}

/// The part of a registration that breaks a rule, if any, given whether its
/// email address is well formed: the name and the password must not be
/// empty, and the address must be well formed.
pub open spec fn registration_fault(
    name: Seq<char>,
    email_accepted: bool,
    password: Seq<char>,
) -> Option<InvalidField> {
    if name.len() == 0 {
        Some(InvalidField::Name)
    } else if !email_accepted {
        Some(InvalidField::Email)
    } else if password.len() == 0 {
        Some(InvalidField::Password)
    } else {
        None
    }
}

impl CreateUserRequest {
    /// Checks the request, given whether its email address is well formed.
    /// The error names the first part that breaks its rule.
    pub fn validate_with(&self, email_accepted: bool) -> (result: Result<(), AppError>)
        ensures
            result == match registration_fault(self.name@, email_accepted, self.password@) {
                Some(field) => Err::<(), AppError>(AppError::ValidationError(field)),
                None => Ok::<(), AppError>(()),
            },
    {
        if self.name.as_str().is_empty() {
            Err(AppError::ValidationError(InvalidField::Name))
        } else if !email_accepted {
            Err(AppError::ValidationError(InvalidField::Email))
        } else if self.password.as_str().is_empty() {
            Err(AppError::ValidationError(InvalidField::Password))
        } else {
            Ok(())
        }
    }

    /// Checks the request: the name and the password must not be empty,
    /// and the email address must be well formed. The error names the first
    /// part that breaks its rule.
    pub fn validate(&self) -> (result: Result<(), AppError>)
        ensures
            result == match registration_fault(
                self.name@,
                email_is_well_formed(self.email@),
                self.password@,
            ) {
                Some(field) => Err::<(), AppError>(AppError::ValidationError(field)),
                None => Ok::<(), AppError>(()),
            },
            self.email@.len() == 0 ==> result is Err,
    {
        let email_accepted = is_email(self.email.as_str());
        self.validate_with(email_accepted)
    }
}

impl From<CreateUserRequest> for CreateUser {
    fn from(value: CreateUserRequest) -> (event: CreateUser) {
        let CreateUserRequest { name, email, password } = value;
        Self { name, email, password }
    }
}

impl vstd::std_specs::convert::FromSpecImpl<CreateUserRequest> for CreateUser {
    open spec fn obeys_from_spec() -> bool {
        true
    }

    open spec fn from_spec(value: CreateUserRequest) -> CreateUser {
        CreateUser { name: value.name, email: value.email, password: value.password }
    }
}

/// Asks to give a user another role.
#[derive(Clone, Copy, Debug, PartialEq, Eq, Structural)]
pub struct UpdateUserRoleReqeust {
    pub role: RoleName,
}

/// A role request together with the user that it is about.
#[derive(Clone, Copy, Debug, PartialEq, Eq, Structural)]
pub struct UpdateUserRoleRequestWithUserId(pub UserId, pub UpdateUserRoleReqeust);

impl UpdateUserRoleRequestWithUserId {
    pub fn new(user_id: UserId, request: UpdateUserRoleReqeust) -> (with_id: Self)
        ensures
            with_id == UpdateUserRoleRequestWithUserId(user_id, request),
    {
        UpdateUserRoleRequestWithUserId(user_id, request)
    }
}

impl From<UpdateUserRoleRequestWithUserId> for UpdateUserRole {
    fn from(value: UpdateUserRoleRequestWithUserId) -> (event: UpdateUserRole) {
        let UpdateUserRoleRequestWithUserId(user_id, UpdateUserRoleReqeust { role }) = value;
        Self { user_id, role: Role::from(role) }
    }
}

impl vstd::std_specs::convert::FromSpecImpl<UpdateUserRoleRequestWithUserId> for UpdateUserRole {
    open spec fn obeys_from_spec() -> bool {
        true
    }

    open spec fn from_spec(value: UpdateUserRoleRequestWithUserId) -> UpdateUserRole {
        UpdateUserRole {
            user_id: value.0,
            role: match value.1.role {
                RoleName::Admin => Role::Admin,
                RoleName::User => Role::User,
            },
        }
    }
}

/// The user who registered a book.
#[derive(Debug, PartialEq, Eq)]
pub struct BookOwner {
    pub id: UserId,
    pub name: String,
}

impl From<crate::kernel::model::user::BookOwner> for BookOwner {
    fn from(value: crate::kernel::model::user::BookOwner) -> (owner: BookOwner) {
        let crate::kernel::model::user::BookOwner { id, name } = value;
        Self { id, name }
    }
}

impl vstd::std_specs::convert::FromSpecImpl<crate::kernel::model::user::BookOwner> for BookOwner {
    open spec fn obeys_from_spec() -> bool {
        true
    }

    open spec fn from_spec(value: crate::kernel::model::user::BookOwner) -> BookOwner {
        BookOwner { id: value.id, name: value.name }
    }
}

/// The user who borrowed a book.
#[derive(Debug, PartialEq, Eq)]
pub struct CheckoutUser {
    pub id: UserId,
    pub name: String,
}

impl From<crate::kernel::model::user::CheckoutUser> for CheckoutUser {
    fn from(value: crate::kernel::model::user::CheckoutUser) -> (user: CheckoutUser) {
        let crate::kernel::model::user::CheckoutUser { id, name } = value;
        Self { id, name }
    }
}

impl vstd::std_specs::convert::FromSpecImpl<crate::kernel::model::user::CheckoutUser> for CheckoutUser {
    open spec fn obeys_from_spec() -> bool {
        true
    }

    open spec fn from_spec(value: crate::kernel::model::user::CheckoutUser) -> CheckoutUser {
        CheckoutUser { id: value.id, name: value.name }
    }
}

} // verus!
