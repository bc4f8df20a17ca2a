pub mod paths;
pub mod hist;
pub mod cache;
pub mod bin_cache;
pub mod store;
pub mod mem_cache;
pub mod parquet_meta;
pub mod thetadata;
pub mod thetadata_live;
