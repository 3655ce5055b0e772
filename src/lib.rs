//! Setup rules of a small Vulkan rendering scaffold: swapchain settings,
//! queue-family discovery and device choice, render-pass layout, render
//! targets, frame synchronisation objects, and a clickable button. Each
//! function works on plain values; the calls into the driver and the window
//! system live with the application that uses this crate.
pub mod button;
pub mod command;
pub mod device;
pub mod event_loop;
pub mod framebuffer;
pub mod instance;
pub mod render_pass;
pub mod swapchain;
