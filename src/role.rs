use vstd::prelude::*;

verus! {

/// The closed set of account roles.
#[derive(Debug, Clone, Copy, PartialEq, Eq, Structural)]
pub enum Role {
    Admin,
    User,
    SuperUser,
}

/// Canonical name of a role, as carried inside signed tokens.
pub open spec fn role_name(r: Role) -> Seq<char> {
    match r {
        Role::Admin => "admin"@,
        Role::User => "user"@,
        Role::SuperUser => "superuser"@,
    }
}

/// Role stored under a numeric id; unknown ids fall back to the least
/// privileged role.
pub open spec fn role_of_id(id: i32) -> Role {
    if id == 1 {
        Role::Admin
    } else if id == 3 {
        Role::SuperUser
    } else {
        Role::User
    }
}

/// The role whose canonical name is `s`, if any.
pub open spec fn role_of_name(s: Seq<char>) -> Option<Role> {
    if s == "admin"@ {
        Some(Role::Admin)
    } else if s == "user"@ {
        Some(Role::User)
    } else if s == "superuser"@ {
        Some(Role::SuperUser)
    } else {
        None
    }
}

/// Facts about the three literal role names that proofs over them need.
pub proof fn lemma_role_names()
    ensures
        "admin"@.len() == 5,
        "user"@.len() == 4,
        "superuser"@.len() == 9,
        role_name(Role::Admin).len() == 5,
        role_name(Role::User).len() == 4,
        role_name(Role::SuperUser).len() == 9,
{
    reveal_strlit("admin");
    reveal_strlit("user");
    reveal_strlit("superuser");
}

impl Role {
    /// The canonical name of this role.
    pub fn as_str(&self) -> (r: &'static str)
        ensures
            r@ == role_name(*self),
    {
        match self {
            Role::Admin => "admin",
            Role::User => "user",
            Role::SuperUser => "superuser",
        }
    }

    /// The role stored under `role_id`; every id maps to a role.
    pub fn from_id(role_id: i32) -> (r: Role)
        ensures
            r == role_of_id(role_id),
    {
        match role_id {
            1 => Role::Admin,
            2 => Role::User,
            3 => Role::SuperUser,
            _ => Role::User,
        }
    }

    /// The role named `s`; any other string is rejected.
    pub fn from_name(s: &str) -> (r: Result<Role, ()>)
        ensures
            r matches Ok(x) ==> role_of_name(s@) == Some(x),
            r is Err ==> role_of_name(s@) is None,
    {
        let c = crate::text::chars_of(s);
        if crate::text::equals_str(&c, "admin") {
            Ok(Role::Admin)
        } else if crate::text::equals_str(&c, "user") {
            Ok(Role::User)
        } else if crate::text::equals_str(&c, "superuser") {
            Ok(Role::SuperUser)
        } else {
            Err(())
        }
    }
}

/// Naming a role and reading the name back gives the same role.
pub proof fn lemma_role_name_round_trip(r: Role)
    ensures
        role_of_name(role_name(r)) == Some(r),
{
    lemma_role_names();
}

impl std::str::FromStr for Role {
    type Err = ();

    fn from_str(s: &str) -> Result<Role, ()> {
        Role::from_name(s)
    }
}

} // verus!
