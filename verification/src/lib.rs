//! A session-lifecycle and callback-to-stream bridging layer for a native,
//! callback-driven body-tracking engine.
//!
//! The native engine is process-global, stateful, and not safe to initialize
//! twice. This crate provides the verified decision core of a wrapper around
//! such an engine: a singleton runtime guard with compare-and-swap acquisition,
//! a device-discovery and module-configuration builder, a generic bridge that
//! turns one native push-callback into an ordered stream of items, a session
//! object that owns the guard and tears everything down in a safe order, and
//! the step logic of a cooperative update-scheduling loop.
//!
//! Every call into the native engine is performed by a driver outside this
//! crate (an async runtime, a test harness with a mock engine). The functions
//! here take the outcomes of those calls as plain values and decide, under
//! contract, what happens next: which error is returned, how the global
//! initialization flag moves, which native calls the driver must make and in
//! what order.

pub mod accessors;
pub mod bridge;
pub mod builder;
pub mod config;
pub mod devices;
pub mod error;
pub mod facade;
pub mod frames;
pub mod gesture;
pub mod guard;
pub mod scheduler;
pub mod session;
pub mod skeleton;
pub mod tracker;

pub use builder::{DeviceDiscoveryState, NuitrackSessionBuilder};
pub use config::{DeviceConfig, DeviceSelector, DiscoveredDeviceInfo, ModuleHandle, ModuleType};
pub use error::NuitrackError;
pub use facade::Nuitrack;
pub use frames::{Color3, DepthFrame, GestureFrame, RGBFrame, UserGesturesFrame, UserStateFrame};
pub use gesture::{Gesture, GestureState, GestureType, UserGestures, UserState, UserStateType};
pub use session::{ActiveDeviceContext, NuitrackSession};
pub use skeleton::JointType;
