//! Verified core of the Ayuz control center: the decisions behind the
//! display, keyboard and touchpad settings, the palm-rejection watcher and
//! the NumberPad pointer relay.

pub mod text;
pub mod relais;
pub mod geraet;
pub mod tippen;
pub mod zahlen;
pub mod desktop;
pub mod zielmodus;
pub mod ruhezustand;
pub mod typing;
pub mod befehle;
pub mod sprachen;
