//! Immediate-mode user interfaces rendered by a remote client: stable widget
//! identities, the per-tick widget tree, its difference to the previous tick,
//! and the routing of interaction events back to the widgets.
pub mod hash;
pub mod text;
pub mod handle;
pub mod element;
pub mod event;
pub mod ordered;
pub mod gui;
pub mod shape;
pub mod layout;
pub mod number;
pub mod widgets;
pub mod elements;
pub mod ident;
pub mod connection;
pub mod page;
pub mod html;
