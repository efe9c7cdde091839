//! Menus: the data handed to the UI layer, the builders that produce it,
//! and the dispatcher that fans menu events out to listeners.

pub mod event;
pub mod ids;
pub mod listener;
pub mod types;

pub use event::{MenuEvent, MenuEventDispatcher};
pub use listener::{Delivery, MenuEventListener};
pub use ids::{is_drawn_id, is_generated_id, UuidDraw, is_lower_hex_digit, is_uuid_v4_text};
pub use types::{Menu, MenuItem, MenuItemData, Submenu};
