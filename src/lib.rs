//! Typed dispatch over a publish/subscribe bus: wire records, the text codec
//! that frames them, the per-listener receive loop, the multi-listener
//! dispatcher and the correlated request client.
pub mod client;
pub mod codec;
pub mod dispatch;
pub mod envelope;
pub mod receive;
