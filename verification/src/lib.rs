//! Authentication and authorisation core of a REST backend: password
//! digests, signed bearer tokens, the request gate that turns a header into
//! an identity, role and permission checks, and the planning of membership
//! changes. Every function carries a contract. Verus proves each of them but
//! those of the few functions that call into another crate, which say in
//! their doc comments what they take on trust.

pub mod authz;
pub mod config;
pub mod error;
pub mod form;
pub mod gate;
pub mod hasher;
pub mod identity;
pub mod login;
pub mod membership;
pub mod response;
pub mod serializer;
pub mod text;
pub mod token;
