//! Photo-sharing service core: upload naming and messages, input
//! validation, payment requests and the decision steps of each request.
pub mod text;
pub mod errors;
pub mod checks;
pub mod validation;
pub mod login;
pub mod mailer;
pub mod accounts;
pub mod payments;
pub mod worker;
pub mod paths;
pub mod ids;
pub mod formats;
pub mod models;
pub mod upload;
pub mod videos;
pub mod processor;
pub mod times;
