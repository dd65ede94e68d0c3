//! The logic of a tube of LEDs that is steered by MQTT messages and by two touch pads.
//!
//! Messages become commands (`message`), the touch pads add their own and pass the others on
//! (`touch`), and the lamp carries them out and shows its state on the LEDs (`lamp`). The
//! order in which a session subscribes to topics and looks after the pads is in `session`.
//! What each of them does is stated and proved in `guarantees`, and of the calls themselves in
//! `answers`; what holds of all of them together in `laws` and `text_laws`.

pub mod answers;
pub mod color;
pub mod command;
pub mod guarantees;
pub mod lamp;
pub mod laws;
pub mod message;
pub mod mode;
pub mod session;
pub mod text;
pub mod text_laws;
pub mod touch;
