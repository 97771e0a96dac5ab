//! Decisions of a Vulkan bring-up sequence (instance, device, swap chain),
//! written as verified functions over plain values.
//!
//! The Vulkan calls themselves are made by the program around this library;
//! this crate decides what to ask for and what to pick from the answers.

pub mod vulkan;
pub mod names;
pub mod queue;
pub mod swapchain;
pub mod debug;
pub mod setup;
pub mod device;
pub mod lifecycle;
