use vstd::prelude::*;
use crate::network::network_models::NetworkResult;
use crate::network::stable_diffusion_models::{StableDiffusionResponse, StableDiffusionTextRequest};

verus! {

pub const TXT2IMG_PATH: &'static str = "txt2img";

/// The text-to-image request for `prompt`, sampled in `steps` steps.
pub fn image_request(prompt: String, steps: u64) -> (r: StableDiffusionTextRequest)
    ensures
        r.prompt == prompt,
        r.steps == steps,
{
    StableDiffusionTextRequest::new(prompt, steps)
}

/// A reply of the image generator that can be used: a success carries at
/// least one image.
pub open spec fn has_image_if_ok(result: NetworkResult<StableDiffusionResponse>) -> bool {
    result matches Ok(response) ==> response.images@.len() > 0
}

/// The first generated image, in base64, or `None` when the generator
/// failed.
pub fn first_image(result: &NetworkResult<StableDiffusionResponse>) -> (r: Option<String>)
    requires
        has_image_if_ok(*result),
    ensures
        match *result {
            Ok(response) => r == Some(response.images@[0]),
            Err(_) => r is None,
        },
{
    match result {
        Ok(response) => Some(response.images[0].clone()),
        Err(_) => None,
    }
}

} // verus!
