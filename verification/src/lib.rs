pub mod selector;
pub mod forward;
