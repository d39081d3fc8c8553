//! A flow-controlled relay that carries image bytes from a host link into a
//! display, together with the request/response protocol that drives it.

pub mod codec;
pub mod queue;
pub mod relay;
pub mod protocol;
