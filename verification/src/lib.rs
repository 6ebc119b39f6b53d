//! Backend commands of a small desktop-application shell: a greeting
//! builder, and the reply shaping for the window's always-on-top
//! setter and getter.

pub mod greeting;
pub mod on_top;
