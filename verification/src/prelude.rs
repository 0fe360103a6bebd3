//! The commonly used items of this crate under one roof.

pub use crate::callback::AsCallback;
pub use crate::callback::Callback;
pub use crate::callback::CallbackId;
pub use crate::callback::CallbackMap;
pub use crate::callback::HostValue;
pub use crate::timers::set_interval;
pub use crate::timers::set_timeout;
pub use crate::timers::IntervalHandle;
pub use crate::timers::TimeoutHandle;
