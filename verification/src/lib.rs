//! Signal handling primitives: process-wide signal dispositions and a
//! thread-safe handoff channel that lets a signal handler (or any thread)
//! pass a value to a thread waiting for it.

pub mod channel;
pub mod signal;

pub use channel::ChannelError;
pub use channel::SyncChannel;

pub use signal::SIGHUP;
pub use signal::SIGINT;
pub use signal::SIGQUIT;
pub use signal::SIGTRAP;
pub use signal::SIGUSR1;
pub use signal::SIGUSR2;
pub use signal::SIGPIPE;
pub use signal::SIGALRM;
pub use signal::SIGTERM;
