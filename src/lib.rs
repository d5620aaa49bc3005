//! Marshaling layer for the Windows credential store: text encoding, the
//! byte layout of the secret blob, the record handed to the store, and the
//! mapping of the store's status codes.
pub mod blob;
pub mod credential;
pub mod text;
