pub mod provider;
pub mod router;
pub mod kilo;
