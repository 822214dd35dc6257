//! Verified core of a verifiable-query protocol: typed literals and columns,
//! placeholders, the trivial and pass-through plans, and the round builders.
pub mod arena;
pub mod builders;
pub mod demo_mock_plan;
pub mod empty_exec;
pub mod errors;
pub mod evaluation;
pub mod index_map;
pub mod literal;
pub mod placeholder;
pub mod refs;
pub mod scalar;
pub mod table;
