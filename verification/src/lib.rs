//! A verified singly linked list built by prepending, together with the
//! counted traversal and the argument handling that a traversal benchmark
//! needs. The list is modelled as a `Seq` of its payloads in head-to-tail
//! order, which is exactly the order a traversal visits them in.

pub mod cli;
pub mod list;
pub mod timing;
