//! Monotonic time source and busy-wait delay facility for a bare-metal
//! single-core microcontroller.
//!
//! The verified core keeps the timing state (millisecond tick count and the
//! CPU clock scale) as an explicitly owned value and proves the arithmetic of
//! the microsecond read algorithm, the interrupt-driven counter update, the
//! unit conversions, and the two delay strategies.

pub mod systime;

pub use crate::systime::MicroSeconds;
pub use crate::systime::MilliSeconds;
pub use crate::systime::QuantTime;
pub use crate::systime::SysTime;
pub use crate::systime::TickWait;
pub use crate::systime::U32time;
pub use crate::systime::WaitOp;
