//! Roles and their inheritance, kept in a graph database.
pub mod manager;

pub use self::manager::{
    GraphQuery, InheritedRole, InheritedRoles, RoleManager, RoleQueryResult, Roles,
};
