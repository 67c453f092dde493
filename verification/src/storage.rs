pub mod key_value;
