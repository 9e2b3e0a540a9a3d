//! Raw-to-semantic MIDI translation: byte-level decoding of channel-voice
//! messages, a 16-bit identifier scheme for physical controls, and the
//! stateful heuristic that merges correlated control-change pairs into one
//! 14-bit control value.

pub mod controll_element;
pub mod jackmidi;
pub mod midi_function;
pub mod util;
