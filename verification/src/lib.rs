//! Core of a GraphQL-to-relational query engine: an abstract SQL
//! representation, an access-control predicate solver, argument mappers
//! from validated GraphQL arguments to abstract SQL, a renderer that
//! emits parameterized SQL text, and a multi-step transaction resolver.

pub mod http;
pub mod json;
pub mod aggregate;
pub mod builder;
pub mod cookie;
pub mod dispatch;
pub mod error;
pub mod graphql;
pub mod order_by;
pub mod predicate;
pub mod predicate_mapper;
pub mod renderer;
pub mod schema;
pub mod solver;
pub mod sql_ast;
pub mod system;
pub mod text;
pub mod transaction;
