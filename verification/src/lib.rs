//! The device-independent core of a graphics backend.
//!
//! A backend gives a rendering engine its buffers and framebuffers. Every such
//! resource lives on a device, and a device is reached through calls that
//! cannot be reasoned about. This crate holds everything of a backend that
//! needs no device: the records of the resources, the cache of what is bound,
//! the checks that decide whether an operation may proceed, and the work on
//! mapped memory once the device has handed it over. All of it is verified.
//!
//! A driver sits between this crate and the device. Before an operation it asks
//! the core what the device has to do, performs exactly that, and hands the
//! outcome back as plain values: the name of a new resource, a slice over
//! mapped memory, a completeness report.

pub mod backend;
