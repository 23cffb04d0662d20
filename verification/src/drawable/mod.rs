//! The application's chrome: a toolbar of buttons above a drawing surface.
//!
//! The widgets here keep their own state. They are told of every touch, asked
//! once per frame whether a press is pending, and asked what of them is to be
//! drawn; they never draw themselves.

pub mod assets;
pub mod buttons;
pub mod chrome;
pub mod surface;
pub mod toolbar;

pub use assets::Asset;
pub use buttons::{AppButton, ButtonDrawing, ButtonStyle, PressHandler};
pub use chrome::AppChrome;
pub use surface::AppSurface;
pub use toolbar::AppToolbar;
