//! A minimal concurrency core: a FIFO message channel with optional capacity
//! bound and a closed/open lifecycle, together with a small task scheduler
//! model. The channel state machine is pure and fully verified; a runtime
//! (threads, an event loop) drives it from outside by performing the
//! suspensions and wake-ups that the operations report.

pub mod bank;
pub mod calculator;
pub mod channel;
pub mod counter;
pub mod laws;
pub mod messages;
pub mod person;
pub mod producers;
pub mod task;
pub mod text;
