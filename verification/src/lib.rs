pub mod events;
pub mod interact;
pub mod print_list;
pub mod styles;
pub mod text;
pub mod utils;
