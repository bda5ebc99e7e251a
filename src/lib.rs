//! Client side of the opening of a secure-shell transport: version banners,
//! binary packet framing and the algorithm-negotiation message.
pub mod banner;
pub mod cursor;
pub mod error;
pub mod kex_init;
pub mod name_list;
pub mod packet;
pub mod session;
pub mod wire;
