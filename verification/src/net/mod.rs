pub mod queue;
pub mod framing;
pub mod pool;
pub mod rate_limit;
