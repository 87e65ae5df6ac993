pub mod input_field;
