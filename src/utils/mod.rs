pub mod memory;
pub mod metrics;
pub mod window;

pub use memory::Memory;
pub use metrics::Metrics;
