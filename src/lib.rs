//! Gathers host facts (distribution, user, CPU, memory, temperature,
//! installed packages, a quote of the day) and renders them as a banner
//! and a list of labelled lines.
pub mod banner;
pub mod distro;
pub mod entry;
pub mod number;
pub mod packages;
pub mod probe;
pub mod quote;
pub mod style;
pub mod text;
