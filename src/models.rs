//! The shapes of the group-issues query response.

pub mod graphql;
pub mod groups;
pub mod issues;
pub mod projects;
