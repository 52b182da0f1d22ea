pub mod memory;
pub mod rv64_cpu_context;
