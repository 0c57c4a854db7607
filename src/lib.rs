//! Request/response logic of three small HTTP services: a company-intelligence
//! lookup, a resume render endpoint and a bare acknowledgement service.
//! The HTTP plumbing lives outside this library; here each handler is a plain
//! function from request value to response value, with its contract proved.

pub mod intel;
pub mod render;
pub mod skeleton;
