use vstd::prelude::*;

use crate::text::{blank, contains_str, is_blank, occurs_in, str_eq};

verus! {

/// A user as the API shows it: everything but the password hash.
pub struct User {
    pub id: String,
    pub username: String,
    pub display_name: String,
    pub role: String,
    pub created_at: String,
    pub updated_at: String,
}

/// A row of the user store.
pub struct UserRow {
    pub id: String,
    pub username: String,
    pub password_hash: String,
    pub display_name: String,
    pub role: String,
    pub created_at: String,
    pub updated_at: String,
}

impl UserRow {
    /// The public view of this row.
    pub fn to_public(&self) -> (r: User)
        ensures
            r.id@ == self.id@,
            r.username@ == self.username@,
            r.display_name@ == self.display_name@,
            r.role@ == self.role@,
            r.created_at@ == self.created_at@,
            r.updated_at@ == self.updated_at@,
    {
        User {
            id: self.id.clone(),
            username: self.username.clone(),
            display_name: self.display_name.clone(),
            role: self.role.clone(),
            created_at: self.created_at.clone(),
            updated_at: self.updated_at.clone(),
        }
    }
}

/// Body of a user creation.
pub struct CreateUserRequest {
    pub username: String,
    pub password: String,
    pub display_name: Option<String>,
    pub role: Option<String>,
}

/// Body of a user update; absent fields stay as they are.
pub struct UpdateUserRequest {
    pub display_name: Option<String>,
    pub role: Option<String>,
    pub password: Option<String>,
}

/// A user creation that passed validation, defaults filled in.
pub struct NewUser {
    pub username: String,
    pub password: String,
    pub display_name: String,
    pub role: String,
}

/// Why an admin or auth request was refused.
#[derive(Debug, Clone, Copy, PartialEq, Eq, Structural)]
pub enum ApiError {
    MissingToken,
    InvalidToken,
    BadCredentials,
    UserNotFound,
    WrongCurrentPassword,
    AdminOnly,
    CredentialsRequired,
    InvalidRole,
    UserExists,
    CannotDeleteSelf,
    Internal,
    TokenFailed,
    PasswordUpdateFailed,
    CreateFailed,
    UpdateFailed,
    DeleteFailed,
}

pub open spec fn status_of(e: ApiError) -> u16 {
    match e {
        ApiError::MissingToken | ApiError::InvalidToken | ApiError::BadCredentials => 401,
        ApiError::UserNotFound => 404,
        ApiError::AdminOnly => 403,
        ApiError::UserExists => 409,
        ApiError::WrongCurrentPassword | ApiError::CredentialsRequired | ApiError::InvalidRole
        | ApiError::CannotDeleteSelf => 400,
        _ => 500,
    }
}

/// The message shown to the API user for each refusal.
pub open spec fn message_of(e: ApiError) -> Seq<char> {
    match e {
        ApiError::MissingToken => "Token ausente"@,
        ApiError::InvalidToken => "Token inválido ou expirado"@,
        ApiError::BadCredentials => "Usuário ou senha incorretos"@,
        ApiError::UserNotFound => "Usuário não encontrado"@,
        ApiError::WrongCurrentPassword => "Senha atual incorreta"@,
        ApiError::AdminOnly => "Acesso restrito a administradores"@,
        ApiError::CredentialsRequired => "Usuário e senha são obrigatórios"@,
        ApiError::InvalidRole => "Role deve ser 'admin' ou 'user'"@,
        ApiError::UserExists => "Usuário já existe"@,
        ApiError::CannotDeleteSelf => "Não é possível excluir o próprio usuário"@,
        ApiError::Internal => "Erro interno"@,
        ApiError::TokenFailed => "Erro ao gerar token"@,
        ApiError::PasswordUpdateFailed => "Erro ao atualizar senha"@,
        ApiError::CreateFailed => "Erro ao criar usuário"@,
        ApiError::UpdateFailed => "Erro ao atualizar"@,
        ApiError::DeleteFailed => "Erro ao excluir"@,
    }
}

impl ApiError {
    /// The HTTP status code of this refusal.
    pub fn status(self) -> (r: u16)
        ensures
            r == status_of(self),
    {
        match self {
            ApiError::MissingToken | ApiError::InvalidToken | ApiError::BadCredentials => 401,
            ApiError::UserNotFound => 404,
            ApiError::AdminOnly => 403,
            ApiError::UserExists => 409,
            ApiError::WrongCurrentPassword | ApiError::CredentialsRequired | ApiError::InvalidRole
            | ApiError::CannotDeleteSelf => 400,
            _ => 500,
        }
    }

    /// The message shown to the API user.
    pub fn message(self) -> (r: &'static str)
        ensures
            r@ == message_of(self),
    {
        match self {
            ApiError::MissingToken => "Token ausente",
            ApiError::InvalidToken => "Token inválido ou expirado",
            ApiError::BadCredentials => "Usuário ou senha incorretos",
            ApiError::UserNotFound => "Usuário não encontrado",
            ApiError::WrongCurrentPassword => "Senha atual incorreta",
            ApiError::AdminOnly => "Acesso restrito a administradores",
            ApiError::CredentialsRequired => "Usuário e senha são obrigatórios",
            ApiError::InvalidRole => "Role deve ser 'admin' ou 'user'",
            ApiError::UserExists => "Usuário já existe",
            ApiError::CannotDeleteSelf => "Não é possível excluir o próprio usuário",
            ApiError::Internal => "Erro interno",
            ApiError::TokenFailed => "Erro ao gerar token",
            ApiError::PasswordUpdateFailed => "Erro ao atualizar senha",
            ApiError::CreateFailed => "Erro ao criar usuário",
            ApiError::UpdateFailed => "Erro ao atualizar",
            ApiError::DeleteFailed => "Erro ao excluir",
        }
    }
}

pub open spec fn admin_role() -> Seq<char> {
    seq!['a', 'd', 'm', 'i', 'n']
}

pub open spec fn user_role() -> Seq<char> {
    seq!['u', 's', 'e', 'r']
}

/// The roles a user may hold.
pub open spec fn valid_role(r: Seq<char>) -> bool {
    r == admin_role() || r == user_role()
}

pub fn is_valid_role(r: &str) -> (b: bool)
    ensures
        b == valid_role(r@),
{
    proof {
        reveal_strlit("admin");
        reveal_strlit("user");
    }
    assert("admin"@ =~= admin_role());
    assert("user"@ =~= user_role());
    str_eq(r, "admin") || str_eq(r, "user")
}

/// Admin routes are open to the admin role only.
pub fn require_admin(role: &str) -> (r: Result<(), ApiError>)
    ensures
        r is Ok <==> role@ == admin_role(),
        r matches Err(e) ==> e == ApiError::AdminOnly,
{
    proof {
        reveal_strlit("admin");
    }
    assert("admin"@ =~= admin_role());
    if str_eq(role, "admin") {
        Ok(())
    } else {
        Err(ApiError::AdminOnly)
    }
}

/// The role a creation asks for, `user` when it names none.
pub open spec fn requested_role(role: Option<String>) -> Seq<char> {
    match role {
        Some(r) => r@,
        None => user_role(),
    }
}

/// Checks a user creation and fills in its defaults: a blank username or
/// an empty password is refused first, then a role other than `admin` or
/// `user`.
pub fn validate_new_user(req: CreateUserRequest) -> (r: Result<NewUser, ApiError>)
    ensures
        (blank(req.username@) || req.password@.len() == 0) ==> r == Err::<NewUser, ApiError>(ApiError::CredentialsRequired),
        !(blank(req.username@) || req.password@.len() == 0) && !valid_role(requested_role(req.role))
            ==> r == Err::<NewUser, ApiError>(ApiError::InvalidRole),
        r is Ok <==> !(blank(req.username@) || req.password@.len() == 0) && valid_role(requested_role(req.role)),
        r matches Ok(n) ==> {
            &&& n.username@ == req.username@
            &&& n.password@ == req.password@
            &&& n.role@ == requested_role(req.role)
            &&& n.display_name@ == match req.display_name {
                Some(d) => d@,
                None => Seq::<char>::empty(),
            }
        },
{
    if is_blank(req.username.as_str()) || req.password.unicode_len() == 0 {
        return Err(ApiError::CredentialsRequired);
    }
    let role = match req.role {
        Some(r) => r,
        None => {
            proof {
                reveal_strlit("user");
            }
            let u = "user".to_owned();
            assert(u@ =~= user_role());
            u
        },
    };
    if !is_valid_role(role.as_str()) {
        return Err(ApiError::InvalidRole);
    }
    let display_name = match req.display_name {
        Some(d) => d,
        None => String::new(),
    };
    Ok(NewUser { username: req.username, password: req.password, display_name, role })
}

/// An update may leave the role alone or set it to `admin` or `user`.
pub fn validate_update(req: &UpdateUserRequest) -> (r: Result<(), ApiError>)
    ensures
        r is Ok <==> match req.role {
            Some(role) => valid_role(role@),
            None => true,
        },
        r matches Err(e) ==> e == ApiError::InvalidRole,
{
    match &req.role {
        Some(role) => if is_valid_role(role.as_str()) {
            Ok(())
        } else {
            Err(ApiError::InvalidRole)
        },
        None => Ok(()),
    }
}

/// An admin may not delete the account they are signed in with.
pub fn check_deletable(caller_id: &str, target_id: &str) -> (r: Result<(), ApiError>)
    ensures
        r is Ok <==> caller_id@ != target_id@,
        r matches Err(e) ==> e == ApiError::CannotDeleteSelf,
{
    if str_eq(caller_id, target_id) {
        Err(ApiError::CannotDeleteSelf)
    } else {
        Ok(())
    }
}

/// A deletion that removed no row names an unknown user.
pub fn deletion_outcome(rows_deleted: bool) -> (r: Result<(), ApiError>)
    ensures
        r is Ok <==> rows_deleted,
        r matches Err(e) ==> e == ApiError::UserNotFound,
{
    if rows_deleted {
        Ok(())
    } else {
        Err(ApiError::UserNotFound)
    }
}

pub open spec fn unique_marker() -> Seq<char> {
    seq!['U', 'N', 'I', 'Q', 'U', 'E']
}

/// The refusal for a failed insert: a uniqueness violation reported by the
/// store means the username is taken.
pub fn creation_error(store_message: &str) -> (r: ApiError)
    ensures
        r == if occurs_in(unique_marker(), store_message@) { ApiError::UserExists } else { ApiError::CreateFailed },
{
    proof {
        reveal_strlit("UNIQUE");
    }
    assert("UNIQUE"@ =~= unique_marker());
    if contains_str(store_message, "UNIQUE") {
        ApiError::UserExists
    } else {
        ApiError::CreateFailed
    }
}

} // verus!
