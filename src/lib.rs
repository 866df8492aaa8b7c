//! Library side of a compiler plugin that lists every item of a crate
//! through the stable IR: the host target probe, the cargo and compiler
//! flags the plugin needs, the decision taken after type analysis, and the
//! lines printed for each item.

pub mod callback;
pub mod items;
pub mod plugin;
pub mod probe;

pub use callback::{decide, CallbackPhase, CompilationDecision, StablePluginCallbacks};
pub use items::{item_line, print_all_items, ItemDescription};
pub use plugin::{CrateSelection, StablePlugin, StablePluginArgs};
pub use probe::{parse_host_triple, ProbeError};
