//! A small local web server's decisions: which bundled asset answers a request
//! path, and which reply carries the QR code of the server's own address.

pub mod assets;
pub mod media;
pub mod qr;
pub mod resolver;
pub mod response;
pub mod router;
