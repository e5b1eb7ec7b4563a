pub mod feeds;
