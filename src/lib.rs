pub mod error;
pub mod event;
pub mod kind;
pub mod names;
pub mod property;
pub mod window;

pub use error::XError;
pub use event::Event;
pub use kind::EventType;
pub use property::{PropertyChange, PropertyReply, PropertyRequest, PropertyValue};
pub use window::Window;
pub use x11::xlib::XEvent as RawXEvent;
pub use x11::xlib::{
    ButtonPressMask, ButtonReleaseMask, ControlMask, EnterWindowMask, FocusChangeMask,
    KeyPressMask, KeyReleaseMask, LeaveWindowMask, Mod1Mask, Mod2Mask, Mod3Mask, Mod4Mask,
    PointerMotionMask, PropertyChangeMask, SubstructureNotifyMask, SubstructureRedirectMask,
    XButtonEvent, XConfigureEvent, XDestroyWindowEvent, XKeyEvent, XMapEvent, XPropertyEvent,
    XUnmapEvent, XWMHints, XWindowChanges,
};
