//! A minimal event-driven plugin shell: a fixed name, a fixed version, and
//! three lifecycle hooks (initialisation, handler registration, shutdown)
//! that succeed unconditionally and leave every piece of state untouched.

pub mod plugin;
pub mod registry;

pub use plugin::PluginError;
pub use plugin::SentientCorePlugin;
pub use registry::EventRegistry;
