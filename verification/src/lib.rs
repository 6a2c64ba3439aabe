pub mod enumerate;
pub mod models;
pub mod pipeline;
pub mod process;
pub mod recommend;
pub mod seq_util;
pub mod simulate;
