pub mod as_opt_str;
pub mod graceful_shutdown;
pub mod to_opt_str;
