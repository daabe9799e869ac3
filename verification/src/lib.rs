pub mod text;
pub mod text_cleaner;
pub mod search;
pub mod sync_flag;
pub mod config;
pub mod resume_point;
pub mod documents;
pub mod sync_posts;
pub mod endpoints;
pub mod models;
pub mod config_dev;
pub mod config_prod;
pub mod page_text;
pub mod page_events;
pub mod home_page;
pub mod search_view;
