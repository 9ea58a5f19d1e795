//! Chain-interaction primitives of a Starknet benchmarking client: contract
//! address derivation, bounded-concurrency block retrieval and transaction
//! confirmation polling, each stated and proved against a mathematical model.

pub mod address;
pub mod felt;
pub mod fetcher;
pub mod filename;
pub mod poller;
pub mod report;
pub mod text;
