//! Reconstructs `CREATE TABLE` statements from relational catalog metadata.
//!
//! The pipeline has two stages: correlation (`ir`), which stitches the flat
//! metadata record sets of a snapshot (`schema`) into a navigable graph, and
//! synthesis (`ddl`), which renders one correlated table as SQL text.
#![verifier::loop_isolation(false)]

pub mod ddl;
pub mod ir;
pub mod order;
pub mod schema;
pub mod text;
pub mod yes_no;
