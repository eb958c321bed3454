//! The FxSound interface without its toolkit: the state the windows draw, the decisions they
//! make about what the user did, the text they show and the geometry they are laid out in, each
//! with its contract proved.
//!
//! A window is drawn from its state every frame. What the pointer and the keyboard did during the
//! frame is handed to the window as a record of events, and the window answers with the actions
//! the user asked for, in order. Nothing here writes a file, talks to the audio engine or touches
//! the toolkit: the owner of a window applies its actions and draws it.

pub mod assets;
pub mod dialogs;
pub mod i18n;
pub mod layout;
pub mod model;
pub mod state;
pub mod text;
pub mod theme;
pub mod views;
pub mod widgets;
