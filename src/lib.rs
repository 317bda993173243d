//! Event-driven job orchestration for a compute node: decoding of chain logs,
//! the registration and dispatch rules, and the response dispatcher's choice of
//! chain call, each stated as a contract and proved.
pub mod word;
pub mod abi;
pub mod jobs;
pub mod dispatch;
pub mod response;
pub mod laws;
