//! Small demonstrations of basic language features, each with a contract
//! that states exactly what it computes.
pub mod structs;
pub mod loops;
pub mod control_flow;
pub mod borrowing;
pub mod methods;
pub mod enums;
pub mod functions;
pub mod variables;
