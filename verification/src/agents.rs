//! The data records and configurations of the individual collection
//! agents. Each agent's platform probing is the caller's; the records it
//! fills and the configuration defaults live here.

pub mod cpu;
pub mod directory;
pub mod disk;
pub mod machine;
pub mod memory;
pub mod process;
pub mod service;
