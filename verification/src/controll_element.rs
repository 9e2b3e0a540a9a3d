//! A control element: one named function together with how a control's
//! value is to be applied to it.

use crate::midi_function::MidiFunction;
use vstd::prelude::*;

verus! {

/// How a control's value scales into the mapped function's range.
#[allow(non_camel_case_types)]
#[derive(Eq, PartialEq, Copy, Clone, Debug)]
pub enum Scaling {
    LINEAR,
    LOGARITHMIC,
    EXPONENTIAL,
}

/// One function with its value-shaping options.
#[derive(Eq, PartialEq, Clone, Debug)]
pub struct ControllElement {
    pub midi_function: MidiFunction,
    pub invert: bool,
    pub scaling: Option<Scaling>,
}

} // verus!
