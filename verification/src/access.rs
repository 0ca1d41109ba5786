//! Roles and role-based access to the gateway's paths.

use vstd::prelude::*;

verus! {

/// The roles a user of the gateway can hold.
#[derive(Debug, Clone, Copy, PartialEq, Eq, Structural)]
pub enum Role {
    Admin,
    Family,
    Guest,
}

impl Default for Role {
    /// A user whose role is not known is a guest.
    fn default() -> (role: Self)
        ensures
            role == Role::Guest,
    {
        Role::Guest
    }
}

/// `prefix` is a prefix of `s`, character by character.
pub open spec fn starts_with_spec(s: Seq<char>, prefix: Seq<char>) -> bool {
    prefix.is_prefix_of(s)
}

/// Whether a user holding `role` may open `path`: an admin may open every
/// path, a family member the paths under `/jellyfin` and `/files`, a guest
/// only the paths under `/jellyfin`.
pub open spec fn role_may_access(role: Role, path: Seq<char>) -> bool {
    match role {
        Role::Admin => true,
        Role::Family => starts_with_spec(path, "/jellyfin"@) || starts_with_spec(path, "/files"@),
        Role::Guest => starts_with_spec(path, "/jellyfin"@),
    }
}

/// Whether `s` begins with `prefix`.
pub fn has_prefix(s: &str, prefix: &str) -> (b: bool)
    ensures
        b == starts_with_spec(s@, prefix@),
{
    let n = prefix.unicode_len();
    let m = s.unicode_len();
    if n > m {
        return false;
    }
    let mut i: usize = 0;
    while i < n
        invariant
            i <= n,
            n == prefix@.len(),
            m == s@.len(),
            n <= m,
            forall|j: int| 0 <= j < i ==> prefix@[j] == s@[j],
        decreases n - i,
    {
        if prefix.get_char(i) != s.get_char(i) {
            assert(s@.subrange(0, n as int)[i as int] == s@[i as int]);
            return false;
        }
        i = i + 1;
    }
    assert(prefix@ =~= s@.subrange(0, n as int));
    true
}

/// Check role-based access to a path of the gateway.
pub fn user_has_access(role: &Role, path: &str) -> (allowed: bool)
    ensures
        allowed == role_may_access(*role, path@),
        *role == Role::Admin ==> allowed,
        *role == Role::Family ==> (allowed <==> ("/jellyfin"@.is_prefix_of(path@)
            || "/files"@.is_prefix_of(path@))),
        *role == Role::Guest ==> (allowed <==> "/jellyfin"@.is_prefix_of(path@)),
{
    match role {
        Role::Admin => true,
        Role::Family => has_prefix(path, "/jellyfin") || has_prefix(path, "/files"),
        Role::Guest => has_prefix(path, "/jellyfin"),
    }
}

/// How much of the gateway a role opens: a guest least, an admin most.
pub open spec fn privilege(role: Role) -> nat {
    match role {
        Role::Guest => 0,
        Role::Family => 1,
        Role::Admin => 2,
    }
}

/// A role of at least the privilege of another may open every path that the
/// other may open.
pub proof fn access_grows_with_privilege(lower: Role, higher: Role, path: Seq<char>)
    requires
        privilege(lower) <= privilege(higher),
        role_may_access(lower, path),
    ensures
        role_may_access(higher, path),
{
}

/// An admin may open every path.
pub proof fn admin_may_open_every_path(path: Seq<char>)
    ensures
        role_may_access(Role::Admin, path),
{
}

/// A guest may open every path under `/jellyfin`, however long.
pub proof fn guest_may_open_all_of_jellyfin(path: Seq<char>)
    requires
        "/jellyfin"@.is_prefix_of(path),
    ensures
        role_may_access(Role::Guest, path),
{
}

/// A guest may open no path outside `/jellyfin`.
pub proof fn guest_may_open_only_jellyfin(path: Seq<char>)
    requires
        role_may_access(Role::Guest, path),
    ensures
        "/jellyfin"@.is_prefix_of(path),
{
}

/// A family member may open every path under `/jellyfin` and every path
/// under `/files`, however long.
pub proof fn family_may_open_all_of_jellyfin_and_files(path: Seq<char>)
    requires
        "/jellyfin"@.is_prefix_of(path) || "/files"@.is_prefix_of(path),
    ensures
        role_may_access(Role::Family, path),
{
}

/// A family member may open no path outside `/jellyfin` and `/files`; in
/// particular no path under `/admin`.
pub proof fn family_may_open_only_jellyfin_and_files(path: Seq<char>)
    requires
        role_may_access(Role::Family, path),
    ensures
        "/jellyfin"@.is_prefix_of(path) || "/files"@.is_prefix_of(path),
        !"/admin"@.is_prefix_of(path),
{
    reveal_strlit("/admin");
    reveal_strlit("/jellyfin");
    reveal_strlit("/files");
    if "/admin"@.is_prefix_of(path) {
        assert(path.subrange(0, 6)[1] == path[1]);
        assert(path[1] == 'a');
        if "/jellyfin"@.is_prefix_of(path) {
            assert(path.subrange(0, 9)[1] == path[1]);
        } else {
            assert(path.subrange(0, 6)[1] == path[1]);
        }
    }
}

/// The default role, a guest, may open no path that any other role may not
/// open as well.
pub proof fn guest_is_least_privileged(role: Role, path: Seq<char>)
    requires
        role_may_access(Role::Guest, path),
    ensures
        role_may_access(role, path),
{
    access_grows_with_privilege(Role::Guest, role, path);
}

} // verus!
