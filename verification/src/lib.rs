//! Model Context Protocol wire types and rules, verified with Verus.

pub mod carried;
pub mod json;
pub mod text;
pub mod v2025_06_18;
pub mod v2025_11_25;
pub mod rpc_error;
pub mod v2026_07_28;
