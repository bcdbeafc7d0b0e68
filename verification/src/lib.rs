pub mod constants;
pub mod debug;
pub mod device;
pub mod fps;
pub mod frame;
pub mod presenter;
pub mod swapchain;
pub mod tools;
pub mod version;
