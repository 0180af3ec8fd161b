//! Host-side plugin runtime core: an event bus with independent subscribers,
//! a registry of plugin references with a boot-handshake state machine, and
//! the manager that ties them together for the host application.
mod bus;
mod events;
mod manager;
mod paths;
mod registry;
mod server;

pub use manager::PluginManager;
pub use paths::simplified_path;
pub use paths::simplify_plugin_dirs;
pub use paths::verbatim_prefix;

pub use server::PluginRuntimeServer;
pub use server::listen_port;
pub use server::route_all;
pub use server::route_step;

pub use bus::EventBus;
pub use bus::SubscriberModel;
pub use bus::can_recv;
pub use bus::publish_all;
pub use bus::publish_step;
pub use bus::recv_result;
pub use bus::recv_step;
pub use bus::unsubscribe_step;

pub use events::BootResponse;
pub use events::InternalEvent;
pub use events::InternalEventPayload;
pub use registry::BootOutcome;
pub use registry::PluginRef;
pub use registry::PluginRegistry;
pub use registry::PluginState;
pub use registry::boot_step;
pub use registry::bootable;
pub use registry::connect_step;
pub use registry::registry_wf;
pub use registry::terminate_all_step;
pub use registry::state_rank;
pub use registry::terminate_one;
