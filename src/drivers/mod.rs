pub mod led_driver;
pub mod motor_driver;
pub mod nucifera_driver;
