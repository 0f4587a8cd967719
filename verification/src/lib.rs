pub mod ntp;
pub mod settings;
pub mod touch;
pub mod text;
pub mod menu;
pub mod hstr;
pub mod scan;
pub mod weather;
pub mod http;
pub mod display;
pub mod scene;
pub mod icons;
pub mod hangul;
pub mod epd;
pub mod control;
