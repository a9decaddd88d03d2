//! Schema-to-SQL compiler for record types.
//!
//! A record type is described by its name, its ordered fields and a few
//! settings (SQL dialect, identity column, whether identity values come from
//! the caller). From that description this crate computes the five CRUD
//! statements (select all, select by id, insert, update by id, delete by id)
//! as parameterized SQL text, together with the order in which field values
//! must be bound to each statement's placeholders.
//!
//! Every function is verified with Verus against a mathematical model of the
//! text it produces; the models are the `spec` functions of each module.

pub mod binding;
pub mod dialect;
pub mod error;
pub mod laws;
pub mod metadata;
pub mod model;
pub mod naming;
pub mod placeholder_count;
pub mod quoting;
pub mod sql;
pub mod text;

pub use binding::{bind_values, build_binding_plan, BindingPlan};
pub use dialect::DbType;
pub use error::ModelError;
pub use metadata::{build_metadata, GeneratedMetadata};
pub use model::{FieldDescriptor, ModelDescriptor};
pub use sql::{build_sql_queries, SqlQueries};
