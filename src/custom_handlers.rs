//! Built-in custom handlers.

pub mod apple_subs_user_id;
pub mod json_list_handlers;
