pub mod address;
pub mod auth;
pub mod channel;
pub mod decimal;
pub mod error;
pub mod flow;
pub mod ip;
pub mod json;
pub mod model;
pub mod node;
pub mod peer;
pub mod percent;
pub mod responses;
pub mod text;
pub mod withdraw;
