//! Motor and LED drivers built on plain digital output lines.
//!
//! The `ft_*` modules describe fallible outputs and the motors made from them;
//! `drv8835` and `rgb_led` drive chips whose control lines are infallible.
pub mod drv8835;
pub mod ft_motor;
pub mod ft_output;
pub mod ft_output_pair;
pub mod line;
pub mod motor;
pub mod rgb_led;
