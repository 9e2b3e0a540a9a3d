//! Named functions that consumers map advanced events onto. The mapping
//! itself (and the file it is loaded from) belongs to the collaborators
//! around this crate; here a function is no more than its name.

use vstd::prelude::*;

verus! {

/// One named function a control can be mapped to.
#[derive(Hash, Eq, PartialEq, Clone, Debug)]
pub struct MidiFunction {
    name: String,
}

impl View for MidiFunction {
    type V = Seq<char>;

    closed spec fn view(&self) -> Seq<char> {
        self.name@
    }
}

impl MidiFunction {
    pub fn new(name: String) -> (r: Self)
        ensures
            r@ == name@,
    {
        MidiFunction { name }
    }

    pub fn get_name(&self) -> (r: String)
        ensures
            r@ == self@,
    {
        self.name.as_str().to_string()
    }
}

/// A collection of named functions, as loaded from a configuration
/// document by the surrounding application.
#[derive(Clone, Debug)]
pub struct MidiFunctionFile {
    pub midi_functions: Vec<MidiFunction>,
}

} // verus!
