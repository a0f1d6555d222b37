//! Control logic of a small Raspberry Pi web server: request interpretation,
//! output plans for a buzzer, LED, PWM LED and LED matrix, and the text the
//! server answers with.

pub mod args;
pub mod buzzer;
pub mod camera;
pub mod camera_handler;
pub mod driver;
pub mod led;
pub mod led_handler;
pub mod matrix_display;
pub mod server;
pub mod status_response;
pub mod system_calls;
pub mod text;
pub mod use_libcamera;
