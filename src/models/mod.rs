pub mod api;
pub mod app_state;
pub mod led_color;
pub mod motor_power;
pub mod position;
