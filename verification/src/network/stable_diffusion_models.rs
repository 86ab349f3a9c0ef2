use vstd::prelude::*;

verus! {

/// A text-to-image request: the prompt and the number of sampling steps.
#[derive(Debug)]
pub struct StableDiffusionTextRequest {
    pub prompt: String,
    pub steps: u64,
}

impl StableDiffusionTextRequest {
    pub fn new(prompt: String, steps: u64) -> (r: Self)
        ensures
            r.prompt == prompt,
            r.steps == steps,
    {
        StableDiffusionTextRequest { prompt, steps }
    }
}

/// The generated images, each encoded in base64.
#[derive(Debug)]
pub struct StableDiffusionResponse {
    pub images: Vec<String>,
}

} // verus!
