pub mod errors;
pub mod ipc_requests;
pub mod ipc_responses;
pub mod json;
pub mod text;
pub mod messager;
pub mod supervisor;
