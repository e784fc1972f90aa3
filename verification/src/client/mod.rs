//! Client-side state: screens, input focus cycling, the response log and the
//! service menu.
pub mod editing;
pub mod selected_block;
pub mod response;
pub mod response_list;
pub mod service_list;
pub mod text;
pub mod input;
pub mod app;
pub mod layout;
pub mod number;
pub mod service_form;
