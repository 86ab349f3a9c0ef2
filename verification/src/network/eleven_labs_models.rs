use vstd::prelude::*;

verus! {

/// A voice of the speech generator.
#[derive(Debug)]
pub struct Voice {
    pub voice_id: String,
    pub name: String,
}

/// The voices that the speech generator offers.
#[derive(Debug)]
pub struct VoiceResponse {
    pub voices: Vec<Voice>,
}

} // verus!
