pub mod batch_process;
pub mod big_list;
