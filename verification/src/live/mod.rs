pub mod bot;
pub mod config;
pub mod executor;
pub mod feed;
pub mod mock_exchange;
