//! Process scheduling priority on one scale, for Unix and for Windows, and the
//! name of the user who owns the process.
//!
//! Callers speak of priority as a nice value, from -20 (highest) to 19
//! (lowest). Unix knows that scale natively; Windows knows six priority
//! classes, each of which stands for a band of it ([`windows`]).
//!
//! The native calls behind an operation cannot be made from here. So an
//! operation is a conversation ([`protocol`]): the library names the next
//! native call, the caller makes it and hands back what the operating system
//! answered, and the library says what follows, until the operation is over.
//! Which calls are made, in which order, and what their answers mean is decided
//! here, for [`unix`] and for [`windows`].
//!
//! Every operation first passes the capability check of the embedding
//! runtime ([`permissions`], [`ops`]).

pub mod error;
pub mod indicator;
pub mod ops;
pub mod permissions;
pub mod protocol;
pub mod scale;
pub mod unix;
pub mod windows;
