//! The identity of the logged in user, as the session cookie carries it.
use vstd::prelude::*;
use crate::auth::iam::IAMError;
use crate::auth::iam::identity::UserIdentity;
use crate::auth::iam::role::InheritedRoles;
use crate::auth::iam::role::manager::InheritedRole;
use crate::azure_utils::spec_decode_safe_key;
use crate::text::str_equal;

verus! {

/// The logged in user: its identity id, its name and its roles.
#[derive(Debug, Clone)]
pub struct UserId {
    pub user_id: String,
    pub name: String,
    /// The set of role names, each once. It is a `Vec` with no repeated
    /// name rather than a `HashSet`: vstd models a `HashSet` only for keys
    /// whose hashing it specifies (integers, `bool`, ...), not for `String`,
    /// so no contract could say what a `HashSet<String>` holds.
    pub roles: Vec<String>,
}

/// The views of a list of strings.
pub open spec fn spec_string_views(v: Seq<String>) -> Seq<Seq<char>> {
    v.map_values(|s: String| s@)
}

/// The names of the roles of a list.
pub open spec fn spec_role_names(roles: Seq<InheritedRole>) -> Seq<Seq<char>> {
    roles.map_values(|r: InheritedRole| r.role@)
}

proof fn lemma_push_to_set<A>(s: Seq<A>, x: A)
    ensures
        s.push(x).to_set() == s.to_set().insert(x),
{
    assert forall|a: A| #[trigger] s.push(x).contains(a) <==> (s.contains(a) || a == x) by {
        if s.push(x).contains(a) {
            let i = choose|i: int| 0 <= i < s.push(x).len() && s.push(x)[i] == a;
            if i < s.len() {
                assert(s[i] == a);
            }
        }
        if s.contains(a) {
            let i = choose|i: int| 0 <= i < s.len() && s[i] == a;
            assert(s.push(x)[i] == a);
        }
        if a == x {
            assert(s.push(x)[s.len() as int] == x);
        }
    }
    assert(s.push(x).to_set() =~= s.to_set().insert(x));
}

fn contains_string(v: &Vec<String>, s: &str) -> (r: bool)
    ensures
        r == spec_string_views(v@).contains(s@),
{
    let mut i: usize = 0;
    while i < v.len()
        invariant
            i <= v@.len(),
            forall|k: int| 0 <= k < i ==> v@[k]@ != s@,
        decreases v@.len() - i,
    {
        if str_equal(v[i].as_str(), s) {
            assert(spec_string_views(v@)[i as int] == s@);
            return true;
        }
        i = i + 1;
    }
    proof {
        if spec_string_views(v@).contains(s@) {
            let k = choose|k: int| 0 <= k < spec_string_views(v@).len() && spec_string_views(v@)[k] == s@;
            assert(v@[k]@ == s@);
        }
    }
    false
}

/// The set of role names, each once, in the order of first appearance.
pub fn role_set(roles: &InheritedRoles) -> (r: Vec<String>)
    ensures
        spec_string_views(r@).no_duplicates(),
        spec_string_views(r@).to_set() == spec_role_names(roles@).to_set(),
{
    let mut out: Vec<String> = Vec::new();
    let mut i: usize = 0;
    while i < roles.len()
        invariant
            i <= roles@.len(),
            spec_string_views(out@).no_duplicates(),
            spec_string_views(out@).to_set() == spec_role_names(roles@.take(i as int)).to_set(),
        decreases roles@.len() - i,
    {
        let name = roles[i].role.as_str();
        let ghost before = spec_string_views(out@);
        let present = contains_string(&out, name);
        if !present {
            out.push(name.to_owned());
            proof {
                assert(spec_string_views(out@) =~= before.push(name@));
            }
        }
        proof {
            let names = spec_role_names(roles@.take(i + 1));
            assert(names =~= spec_role_names(roles@.take(i as int)).push(name@));
            assert(spec_string_views(out@).to_set() =~= names.to_set()) by {
                if !present {
                    lemma_push_to_set(before, name@);
                } else {
                    assert(before.to_set().contains(name@));
                }
                lemma_push_to_set(spec_role_names(roles@.take(i as int)), name@);
            }
        }
        i = i + 1;
    }
    assert(roles@.take(i as int) =~= roles@);
    out
}

/// The logged in user of an identity with its roles: the id, the name as it
/// was registered, and the set of role names.
pub fn create_user_id(user: UserIdentity, roles: InheritedRoles) -> (r: Result<UserId, IAMError>)
    ensures
        r matches Ok(u) && {
            &&& u.user_id@ == user.0.payload.core.id@
            &&& spec_decode_safe_key(user.0.payload.core.name@) == Some(u.name@)
            &&& spec_string_views(u.roles@).no_duplicates()
            &&& spec_string_views(u.roles@).to_set() == spec_role_names(roles@).to_set()
        },
{
    let role_names = role_set(&roles);
    let data = user.into_data();
    let user_name = data.core.name.to_raw();
    Ok(UserId { user_id: data.core.id, name: user_name, roles: role_names })
}

} // verus!
