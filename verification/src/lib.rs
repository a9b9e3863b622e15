//! The logic of a Keycloak-compatible admin REST API kept in SQLite:
//! the admin token every request must carry (`access`), what a request
//! body must be (`body`), which endpoint a request names and whether it serves the method
//! (`route`), the query string (`query`, `num`), the statements that list
//! and count rows (`sql`) and the columns that store each document
//! (`fields`), how a body names an identity provider (`provider`), group
//! paths (`group`) and the walks over the group tree (`walk`), the checks
//! that a new group and a realm update pass (`admission`), the
//! `client-templates` alias of `client-scopes` (`family`), priorities (`priority`), realm keys (`keys`), stamped
//! identifiers (`clock`), requirement codes (`requirement`) and how the
//! database is initialized (`init`).  `text` holds the string operations
//! they share.  `route_laws` and `sql_laws` state what the router and the
//! statements answer over whole paths and parameters: which endpoint and
//! methods a path reaches, and which column each filter compares.
pub mod text;
pub mod route;
pub mod num;
pub mod query;
pub mod clock;
pub mod requirement;
pub mod sql;
pub mod init;
pub mod group;
pub mod priority;
pub mod keys;
pub mod fields;
pub mod provider;
pub mod family;
pub mod route_laws;
pub mod sql_laws;
pub mod walk;
pub mod admission;
pub mod access;
pub mod body;
