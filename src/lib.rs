//! A handle-based value arena: values are stored in a runtime's slot arena and
//! reached through small copyable handles that are re-validated on every access.
mod slots;

pub mod const_value;
pub mod laws;
pub mod runtime;
pub mod stored_value;

pub use const_value::{store_const_value, store_const_value_as, AccessError, ConstValue, SlotId};
pub use runtime::{Runtime, Slot};
pub use slots::MAX_LIVE;
pub use stored_value::{store_value, store_value_as, StoredValue};
