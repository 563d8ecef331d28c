//! What the operations on top of the engine send and how they read what
//! comes back.

pub mod pubsub;
pub mod topk;
