pub mod amount;
pub mod asset;
pub mod asset_details;
pub mod chain;
pub mod clock;
pub mod fiat;
pub mod gemstone;
pub mod matcher;
pub mod matcher_laws;
pub mod near;
pub mod parser;
pub mod parser_laws;
pub mod progress;
pub mod provider;
pub mod storage;
pub mod sui;
pub mod swap_oneinch;
pub mod text;
pub mod transaction;
