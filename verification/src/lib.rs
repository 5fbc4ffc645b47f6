//! Write-once storage cells and lazily initialized values.
//!
//! A [`unsync::OnceCell`] or [`sync::OnceCell`] starts out empty, can be
//! assigned a value at most once, and thereafter hands out references to that
//! value. A [`unsync::Lazy`] or [`sync::Lazy`] pairs a cell with a producer
//! and computes its value on first access.
//!
//! Both flavors share one contract, written over the spec functions of
//! [`model`]: a cell's abstract state is an `Option` of its contents, a
//! successful initialization is the only transition from `None` to `Some`,
//! and an occupied cell never changes again.

pub mod model;
pub mod sync;
pub mod unsync;
