//! State models for the QTools desktop application.
//!
//! The widget toolkit draws the interface; everything the application
//! *decides* — which toolbar button is selected, when the sidebar
//! collapses, which content page is shown, what the menus and action
//! tables contain — is modelled and verified here. A thin driver
//! outside the library performs the toolkit calls and feeds events
//! back into these models.

pub mod about;
pub mod ai_chat;
pub mod app;
pub mod content;
pub mod entity_list;
pub mod menu;
pub mod screen_shot;
pub mod sidebar;
pub mod text;
pub mod toolbar;
pub mod tutorial;
pub mod welcome;
pub mod window;

pub use window::SplitView;
