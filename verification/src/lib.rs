//! Schema of the notes store: the declared shape of the `notes` table, the
//! versioned migrations that bring a database to it, and what the application
//! does when start-up fails.
//!
//! The crate describes and decides; it touches no database. Running the
//! statements, recording which versions a database has seen and storing the
//! rows is the work of the storage engine that the application hands
//! [`migration::migrations`] to.

pub mod migration;
pub mod schema;
pub mod startup;
