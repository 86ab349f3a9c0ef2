pub mod active_threads;
