//! Product availability and price tracking: the decision logic of the
//! Product Stalker desktop application, with its contracts.

pub mod text;
pub mod currency;
pub mod bot_detection;
pub mod status;
pub mod json;
pub mod decimal;
pub mod error;
pub mod url;
pub mod price;
pub mod jsscan;
pub mod html;
pub mod scraping;
pub mod gtm;
pub mod schema_org;
pub mod next_data;
pub mod shopify;
pub mod uniqlo;
pub mod availability;
pub mod domain_settings;
pub mod services;
pub mod commands;
pub mod window_labels;
pub mod renormalize;
pub mod fetch;
pub mod tray;
pub mod laws;
pub mod site_laws;
