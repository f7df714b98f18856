pub mod rss;
