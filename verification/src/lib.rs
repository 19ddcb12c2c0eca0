//! Status broadcasting core: resolves loose return-date and return-time
//! tokens into a local timestamp, renders it back into short text, and plans
//! what each presence service should be told for a status keyword.

pub mod calendar;
pub mod catalog;
pub mod dispatch;
pub mod formatter;
pub mod resolver;
pub mod text;
