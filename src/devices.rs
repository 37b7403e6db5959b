//! The input backends.

pub use crate::kmbox_net;
pub use crate::qmp;
pub use crate::syscall;
