pub mod data_point;
pub mod feed;
