//! The logic of a personal audio library: a collection of references to audio
//! files that can be listed, played, added to and removed from.
//!
//! * [`models`] – the stored entries.
//! * [`database`] – the commands of the persistence layer, the statements that
//!   each of them runs, and the events it answers with.
//! * [`worker`] – what holds of the answers, whatever the statements do.
//! * [`tables`] – what those statements mean, and what holds of the stored data.
//! * [`pipeline`], [`player`] – what a media pipeline is asked for, and the
//!   playback state; [`playback`] says what holds of the two together.
//! * [`tray`] – the menu of the top-bar indicator.
//! * [`ui`] – the library popover, the dialogs, and the changes to widgets.
//! * [`window`] – what every gesture and every event does; [`gestures`] says what
//!   each of them is for, and [`consistency`] what holds of the window together
//!   with all the others.
//! * [`application`] – starting up.
//! * [`text`], [`decimal`] – white space and decimal numbers.
//!
//! Nothing here touches a file, a widget, a socket or a thread. Functions take
//! what happened as plain values and return what has to happen next.

pub mod application;
pub mod consistency;
pub mod database;
pub mod decimal;
pub mod gestures;
pub mod models;
pub mod pipeline;
pub mod playback;
pub mod player;
pub mod tables;
pub mod text;
pub mod tray;
pub mod ui;
pub mod window;
pub mod worker;
