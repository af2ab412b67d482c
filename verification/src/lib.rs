//! Verified core of a game-controller bridge for a PICO-8 subprocess.
//!
//! The bridge relays controller state into a child process over its standard
//! I/O pipes.  The child asks for a controller's state by printing a poll
//! request: a line holding a device slot number bracketed by a reserved
//! framing glyph.  Every other line it prints is ordinary output and is
//! forwarded untouched.  This crate holds the parts with real invariants:
//! the line framing ([`framer`]), the per-slot handle cache ([`cache`]), the
//! fixed-width response payloads ([`encoder`]), the per-line decision of the
//! bridge loop ([`bridge`]), and the plain-value model of the provider
//! boundary ([`sdl`]).  Process spawning and the actual pipe and provider
//! calls live outside the library and hand it plain values.

pub mod bridge;
pub mod cache;
pub mod encoder;
pub mod framer;
pub mod sdl;
