pub mod dialog;
pub mod events;
pub mod imaging;
pub mod msglog;
pub mod tabs;
pub mod text;
pub mod theme;
