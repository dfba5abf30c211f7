//! Decision logic of a competition robot: motion profiles for its stepper
//! motors, the arithmetic of its steppers, servos, extension and sensors, the
//! packets it is commanded with, and the plan that each request unfolds into.
pub mod fixed_vec;
pub mod packet;
pub mod config;
pub mod profiles;
pub mod actuators;
pub mod sensors;
pub mod plan;
pub mod json_text;
