pub mod display_view;
pub mod view_input_field;
