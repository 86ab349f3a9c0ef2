use vstd::prelude::*;
use crate::network::eleven_labs_models::{Voice, VoiceResponse};
use crate::network::network_models::NetworkResult;

verus! {

pub const VOICES_PATH: &'static str = "voices";

pub const TEXT_TO_SPEECH_PREFIX: &'static str = "text-to-speech/";

/// The path of the speech request for a voice: `text-to-speech/{voice_id}`.
pub fn speech_path(voice_id: &String) -> (r: String)
    ensures
        r@ == TEXT_TO_SPEECH_PREFIX@ + voice_id@,
{
    let mut r = String::from_str(TEXT_TO_SPEECH_PREFIX);
    r.append(voice_id.as_str());
    r
}

/// The voices that the generator offers, or none when it failed.
pub fn voices_or_empty(result: NetworkResult<VoiceResponse>) -> (r: Vec<Voice>)
    ensures
        match result {
            Ok(response) => r@ == response.voices@,
            Err(_) => r@ == Seq::<Voice>::empty(),
        },
{
    match result {
        Ok(response) => response.voices,
        Err(_) => Vec::new(),
    }
}

/// The generated speech, or `None` when the generator failed.
pub fn speech_or_none(result: NetworkResult<Vec<u8>>) -> (r: Option<Vec<u8>>)
    ensures
        match result {
            Ok(audio) => r == Some(audio),
            Err(_) => r is None,
        },
{
    match result {
        Ok(audio) => Some(audio),
        Err(_) => None,
    }
}

/// The position of the first voice named `voice_name`, if any.
pub fn find_voice_by_name(voices: &Vec<Voice>, voice_name: &String) -> (r: Option<usize>)
    ensures
        match r {
            Some(i) => i < voices@.len() && voices@[i as int].name@ == voice_name@ && forall|j: int|
                0 <= j < i ==> voices@[j].name@ != voice_name@,
            None => forall|j: int| 0 <= j < voices@.len() ==> voices@[j].name@ != voice_name@,
        },
{
    let n = voices.len();
    let mut i: usize = 0;
    while i < n
        invariant
            n == voices.len(),
            i <= n,
            forall|j: int| 0 <= j < i ==> voices@[j].name@ != voice_name@,
        decreases n - i,
    {
        if voices[i].name == *voice_name {
            return Some(i);
        }
        i = i + 1;
    }
    None
}

/// The names of the voices, in their order.
pub fn voice_names(voices: &Vec<Voice>) -> (r: Vec<String>)
    ensures
        r@.len() == voices@.len(),
        forall|i: int| 0 <= i < r@.len() ==> #[trigger] r@[i]@ == voices@[i].name@,
{
    let mut r: Vec<String> = Vec::new();
    let n = voices.len();
    let mut i: usize = 0;
    while i < n
        invariant
            n == voices.len(),
            i <= n,
            r@.len() == i,
            forall|j: int| 0 <= j < i ==> #[trigger] r@[j]@ == voices@[j].name@,
        decreases n - i,
    {
        r.push(voices[i].name.clone());
        i = i + 1;
    }
    r
}

} // verus!
