use vstd::prelude::*;
use crate::auth::iam::{IAMConfig, IAMError};
use crate::text::{push_str, str_equal, string_from_chars};

verus! {

/// A vector of a roles
pub type Roles = Vec<String>;

/// Role with inheritance information
#[derive(Debug, Clone)]
pub struct InheritedRole {
    pub role: String,
    pub inherited_from: Option<String>,
}

/// A vector of roles with inheritance information
pub type InheritedRoles = Vec<InheritedRole>;

/// A query of the graph database: the script and its named bindings.
#[derive(Debug, Clone)]
pub struct GraphQuery {
    pub script: String,
    pub bindings: Vec<(String, String)>,
}

/// How a role operation ended, as read from the database's answer; an
/// answer the query cannot give is reported with its message.
#[derive(Debug, Clone)]
pub enum RoleQueryResult {
    Done,
    Failed(IAMError),
    UnexpectedResponse(String),
}

/// Manage the role database
#[derive(Debug, Clone)]
pub struct RoleManager {
    pub host: String,
    pub port: u16,
    pub user: String,
    pub password: String,
}

/// The message of an answer that the query cannot give.
pub open spec fn spec_unexpected_message(response: Seq<char>) -> Seq<char> {
    "Unexpected query response: "@ + response
}

/// The script that adds a role unless it exists: `conflict` or `done`.
pub open spec fn spec_create_role_script() -> Seq<char> {
    "g.v().has('role','name',role).fold().coalesce(unfold().constant('conflict'),addV('role').property('name',role).constant('done'))"@
}

/// The script that lists the names of all roles.
pub open spec fn spec_get_roles_script() -> Seq<char> {
    "g.v().hasLabel('role').values('name');"@
}

/// The script that drops a role: `done`, or `missing` if there was none.
pub open spec fn spec_delete_role_script() -> Seq<char> {
    "g.V().has('role','name', role).sideEffect(drop()).fold().coalesce(unfold().constant('done'),constant('missing'))"@
}

/// The script that makes `role` inherit `inherited_role`: the path of the
/// cycle the new edge would close, `conflict` if the edge exists, else
/// `done`; nothing when `inherited_role` does not exist.
pub open spec fn spec_inherit_role_script() -> Seq<char> {
    "g.v().has('role','name',inherited_role).coalesce(__.repeat(out('has_role').dedup()).until(has('role','name',role)).path().by('name').limit(1).unfold(),__.in('has_role').has('role','name',role).constant('conflict'),__.addE('has_role').from(v().has('role','name',role)).constant('done'))"@
}

/// The script that removes the inheritance of `inherited_role` by `role`.
pub open spec fn spec_disherit_role_script() -> Seq<char> {
    "g.V().has('role','name',role).out('has_role').has('role','name',inherited_role).drop()"@
}

/// The script that adds an identity unless it exists: `conflict` or `done`.
pub open spec fn spec_create_identity_script() -> Seq<char> {
    "g.v().has('identity','name',identity).fold().coalesce(unfold().constant('conflict'),addV('identity').property('name',identity).constant('done'))"@
}

/// The binding of a name to a value.
pub open spec fn is_binding(b: (String, String), name: Seq<char>, value: Seq<char>) -> bool {
    b.0@ == name && b.1@ == value
}

fn binding(name: &str, value: &str) -> (b: (String, String))
    ensures
        is_binding(b, name@, value@),
{
    (name.to_owned(), value.to_owned())
}

fn unexpected(response: &str) -> (r: RoleQueryResult)
    ensures
        r matches RoleQueryResult::UnexpectedResponse(m) && m@ == spec_unexpected_message(response@),
{
    let mut m: Vec<char> = Vec::new();
    push_str(&mut m, "Unexpected query response: ");
    push_str(&mut m, response);
    RoleQueryResult::UnexpectedResponse(string_from_chars(&m))
}

impl RoleManager {
    /// The connection settings of the role database.
    pub fn new(config: &IAMConfig) -> (r: RoleManager)
        ensures
            r.host@ == config.graph_db_host@,
            r.port == config.graph_db_port,
            r.user@ == config.graph_db_user@,
            r.password@ == config.graph_db_password@,
    {
        RoleManager {
            host: config.graph_db_host.clone(),
            port: config.graph_db_port,
            user: config.graph_db_user.clone(),
            password: config.graph_db_password.clone(),
        }
    }

    /// The query that creates a role.
    pub fn create_role(&self, role: &str) -> (q: GraphQuery)
        ensures
            q.script@ == spec_create_role_script(),
            q.bindings@.len() == 1,
            is_binding(q.bindings@[0], "role"@, role@),
    {
        let script = "g.v().has('role','name',role).fold().coalesce(unfold().constant('conflict'),addV('role').property('name',role).constant('done'))";
        GraphQuery { script: script.to_owned(), bindings: vec![binding("role", role)] }
    }

    /// How creating a role ended.
    pub fn create_role_result(response: &str) -> (r: RoleQueryResult)
        ensures
            if response@ == "conflict"@ {
                r matches RoleQueryResult::Failed(IAMError::RoleTaken)
            } else if response@ == "done"@ {
                r is Done
            } else {
                r matches RoleQueryResult::UnexpectedResponse(m) && m@ == spec_unexpected_message(response@)
            },
    {
        if str_equal(response, "conflict") {
            RoleQueryResult::Failed(IAMError::RoleTaken)
        } else if str_equal(response, "done") {
            RoleQueryResult::Done
        } else {
            unexpected(response)
        }
    }

    /// The query that lists the roles; its answer is the list of role names.
    pub fn get_roles(&self) -> (q: GraphQuery)
        ensures
            q.script@ == spec_get_roles_script(),
            q.bindings@.len() == 0,
    {
        GraphQuery { script: "g.v().hasLabel('role').values('name');".to_owned(), bindings: Vec::new() }
    }

    /// The query that deletes a role.
    pub fn delete_role(&self, role: &str) -> (q: GraphQuery)
        ensures
            q.script@ == spec_delete_role_script(),
            q.bindings@.len() == 1,
            is_binding(q.bindings@[0], "role"@, role@),
    {
        let script = "g.V().has('role','name', role).sideEffect(drop()).fold().coalesce(unfold().constant('done'),constant('missing'))";
        GraphQuery { script: script.to_owned(), bindings: vec![binding("role", role)] }
    }

    /// How deleting a role ended.
    pub fn delete_role_result(response: &str) -> (r: RoleQueryResult)
        ensures
            if response@ == "missing"@ {
                r matches RoleQueryResult::Failed(IAMError::RoleNotFound)
            } else if response@ == "done"@ {
                r is Done
            } else {
                r matches RoleQueryResult::UnexpectedResponse(m) && m@ == spec_unexpected_message(response@)
            },
    {
        if str_equal(response, "missing") {
            RoleQueryResult::Failed(IAMError::RoleNotFound)
        } else if str_equal(response, "done") {
            RoleQueryResult::Done
        } else {
            unexpected(response)
        }
    }

    /// The query that makes `role` inherit `inherited_role`.
    pub fn inherit_role(&self, role: &str, inherited_role: &str) -> (q: GraphQuery)
        ensures
            q.script@ == spec_inherit_role_script(),
            q.bindings@.len() == 2,
            is_binding(q.bindings@[0], "role"@, role@),
            is_binding(q.bindings@[1], "inherited_role"@, inherited_role@),
    {
        let script = "g.v().has('role','name',inherited_role).coalesce(__.repeat(out('has_role').dedup()).until(has('role','name',role)).path().by('name').limit(1).unfold(),__.in('has_role').has('role','name',role).constant('conflict'),__.addE('has_role').from(v().has('role','name',role)).constant('done'))";
        GraphQuery {
            script: script.to_owned(),
            bindings: vec![binding("role", role), binding("inherited_role", inherited_role)],
        }
    }

    /// How making a role inherit another ended: no answer means a missing
    /// role, several answers are the path of the cycle the inheritance would
    /// close.
    pub fn inherit_role_result(response: Vec<String>) -> (r: RoleQueryResult)
        ensures
            response@.len() == 0 ==> r matches RoleQueryResult::Failed(IAMError::RoleNotFound),
            response@.len() == 1 ==> if response@[0]@ == "conflict"@ {
                r matches RoleQueryResult::Failed(IAMError::HasRoleTaken)
            } else if response@[0]@ == "done"@ {
                r is Done
            } else {
                r matches RoleQueryResult::UnexpectedResponse(m) && m@ == spec_unexpected_message(response@[0]@)
            },
            response@.len() > 1 ==> r == RoleQueryResult::Failed(IAMError::HasRoleCycle(response)),
    {
        let n = response.len();
        if n == 0 {
            RoleQueryResult::Failed(IAMError::RoleNotFound)
        } else if n == 1 {
            let answer = response[0].as_str();
            if str_equal(answer, "conflict") {
                RoleQueryResult::Failed(IAMError::HasRoleTaken)
            } else if str_equal(answer, "done") {
                RoleQueryResult::Done
            } else {
                unexpected(answer)
            }
        } else {
            RoleQueryResult::Failed(IAMError::HasRoleCycle(response))
        }
    }

    /// The query that removes an inheritance; it always succeeds.
    pub fn disherit_role(&self, role: &str, inherited_role: &str) -> (q: GraphQuery)
        ensures
            q.script@ == spec_disherit_role_script(),
            q.bindings@.len() == 2,
            is_binding(q.bindings@[0], "role"@, role@),
            is_binding(q.bindings@[1], "inherited_role"@, inherited_role@),
    {
        let script = "g.V().has('role','name',role).out('has_role').has('role','name',inherited_role).drop()";
        GraphQuery {
            script: script.to_owned(),
            bindings: vec![binding("role", role), binding("inherited_role", inherited_role)],
        }
    }

    /// The query that registers an identity in the role database.
    pub fn create_identity(&self, identity: &str) -> (q: GraphQuery)
        ensures
            q.script@ == spec_create_identity_script(),
            q.bindings@.len() == 1,
            is_binding(q.bindings@[0], "identity"@, identity@),
    {
        let script = "g.v().has('identity','name',identity).fold().coalesce(unfold().constant('conflict'),addV('identity').property('name',identity).constant('done'))";
        GraphQuery { script: script.to_owned(), bindings: vec![binding("identity", identity)] }
    }

    /// How registering an identity ended.
    pub fn create_identity_result(identity: &str, response: &str) -> (r: RoleQueryResult)
        ensures
            if response@ == "conflict"@ {
                r matches RoleQueryResult::Failed(IAMError::Internal(m))
                    && m@ == "Identity "@ + identity@ + " already registered"@
            } else if response@ == "done"@ {
                r is Done
            } else {
                r matches RoleQueryResult::UnexpectedResponse(m) && m@ == spec_unexpected_message(response@)
            },
    {
        if str_equal(response, "conflict") {
            let mut m: Vec<char> = Vec::new();
            push_str(&mut m, "Identity ");
            push_str(&mut m, identity);
            push_str(&mut m, " already registered");
            RoleQueryResult::Failed(IAMError::Internal(string_from_chars(&m)))
        } else if str_equal(response, "done") {
            RoleQueryResult::Done
        } else {
            unexpected(response)
        }
    }
}

} // verus!
