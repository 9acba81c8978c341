pub mod basic;
pub mod media_grid;
pub mod media_item;
pub mod media_item_context_menu_items;
pub mod pagination;
pub mod passkey;
pub mod selection_bar;
pub mod toasts;
pub mod upload_area;
