pub mod append;
pub mod append_rollover_k;
pub mod batch_distribute;
pub mod initialize;
pub mod initialize_batch_process;
