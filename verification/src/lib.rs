//! Version-aware model of the Windows Virtual Desktop COM surface.
//!
//! The shell exposes the Virtual Desktop feature through private COM
//! interfaces whose identifiers and method tables change between Windows
//! builds.  This crate captures the part of that problem that is pure
//! logic, with machine-checked contracts:
//!
//! - the registry of known build versions and the rule that picks the
//!   definition matching the running system ([`registry`]),
//! - the declarative per-build interface definitions (identifier and
//!   ordered method descriptors) and the structural compatibility facts
//!   that make reuse of an identifier across builds sound ([`tables`]),
//! - the dispatch layer that turns a version-independent method name into
//!   a vtable slot and an argument forwarding rule ([`dispatch`]),
//! - the reference-count discipline for owned and borrowed interface
//!   pointers ([`handle`]),
//! - the adapter that translates each build's concrete notification
//!   callbacks into one stable event contract ([`notify`]),
//! - the registration lifecycle of the notification sink ([`listener`]),
//! - the PE code identifier used to fetch matching debug symbols ([`pe`]).
//!
//! The actual foreign calls (vtable invocations, service lookup, OS
//! version queries) are inherently unsafe and platform-bound; they live
//! outside this library and consume the decisions computed here.

pub mod dispatch;
pub mod handle;
pub mod hresult;
pub mod interfaces;
pub mod listener;
pub mod notify;
pub mod pe;
pub mod registry;
pub mod tables;
pub mod version;
