pub mod console;
pub mod buttons;
pub mod buzzer;
pub mod servo;
