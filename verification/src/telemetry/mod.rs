//! What the agent reports about itself: usage counters flushed with each
//! heartbeat, and the fleet's status vocabulary.

pub mod heartbeat;
