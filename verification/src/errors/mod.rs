pub mod network_error;
