use vstd::prelude::*;
use crate::network::eleven_labs_models::Voice;
use crate::services::speech_generation_service::voice_names;
use crate::utils::text::{join_strings, seq_join};

verus! {

pub const VOICE_NAME_SEPARATOR: &'static str = ", ";

/// The reply of the voices command: the names of the voices, separated by
/// a comma and a space.
pub fn voices_reply(voices: &Vec<Voice>) -> (r: String)
    ensures
        r@ == seq_join(voices@.map_values(|v: Voice| v.name@), VOICE_NAME_SEPARATOR@),
{
    let names = voice_names(voices);
    proof {
        assert(names@.map_values(|s: String| s@) =~= voices@.map_values(|v: Voice| v.name@));
    }
    join_strings(&names, VOICE_NAME_SEPARATOR)
}

} // verus!
