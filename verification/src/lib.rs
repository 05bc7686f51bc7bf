//! Rental-agreement backend logic: Typst rendering of agreements, the
//! agreement-proposal state kept while both parties confirm and sign,
//! storage keys, request building for the Diia services and error replies.
pub mod text;
pub mod typst;
pub mod eusign;
pub mod agreement;
pub mod server_error;
pub mod cache;
pub mod s3;
pub mod server;
pub mod config;
pub mod diia;
pub mod routes;
