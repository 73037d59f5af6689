//! Microsecond timestamps and a level-filtered logger.

pub mod calendar;
pub mod clock;
pub mod decimal;
pub mod logger;
pub mod noncopyable;
pub mod timestamp;
