pub mod crtc;
pub mod framebuffer;

pub use self::crtc::Crtc6845;

pub use self::framebuffer::FrameBuffer;
