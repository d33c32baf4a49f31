//! Supplier records and the compilation of caller-supplied filters into
//! parameterized query fragments.

pub mod builder;
pub mod criteria;
pub mod error;
pub mod laws;
pub mod operators;
pub mod schema;
pub mod store;
pub mod table;
pub mod text;

pub use builder::QueryBuilder;
pub use criteria::FilterCriteria;
pub use error::{FilterError, FilterErrorView};
pub use operators::ComparisonOp;
pub use schema::{SupplierField, TypeClass};
