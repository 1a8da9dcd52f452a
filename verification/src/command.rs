//! The administrative side: what is said on the control channel and the
//! operations that are built on it.

pub mod exchange;
pub mod ids;
pub mod idset;
pub mod messages;
pub mod metrics;
pub mod operations;
pub mod status;
pub mod tables;
pub mod upgrade;

pub use self::operations::{
    add_application, add_backend, add_certificate, add_frontend, add_tcp_front, dump_state,
    hard_stop, load_state, logging_filter, metrics, order_command, query_application,
    remove_application, remove_backend, remove_certificate, remove_frontend, remove_tcp_front,
    save_state, soft_stop,
};
pub use self::status::status;
pub use self::upgrade::upgrade;
