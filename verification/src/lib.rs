pub mod client;
pub mod multipart;
pub mod router;
