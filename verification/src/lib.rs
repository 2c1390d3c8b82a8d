//! Verified core of the Curcat curve digitizer: text escaping, localisation
//! tables, configuration sanitising, image-limit planning and pixel transforms.

pub mod axis_input;
pub mod calibration;
pub mod clipboard;
pub mod config;
pub mod decode;
pub mod dropped;
pub mod escape;
pub mod filters;
pub mod float;
pub mod export;
pub mod i18n;
pub mod input;
pub mod kinds;
pub mod limits;
pub mod loader;
pub mod meta;
pub mod messages;
pub mod project;
pub mod prompt;
pub mod text;
pub mod trace;
pub mod transform;
pub mod ui;
