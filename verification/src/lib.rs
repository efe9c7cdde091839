//! Menu model, menu event dispatch and native window bookkeeping for an
//! OpenHarmony ability, with the decisions that surround the native calls.

pub mod error;
pub mod menu;
pub mod window;

pub use error::NativeError;
pub use menu::{
    is_generated_id, is_lower_hex_digit, is_uuid_v4_text, Menu, MenuEvent,
    MenuEventDispatcher, MenuEventListener, MenuItem, MenuItemData, Submenu,
};

pub use window::{plan_os_window, WindowConfig, WindowIdAllocator};
