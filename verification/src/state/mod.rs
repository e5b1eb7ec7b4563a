pub mod feed_manager;
