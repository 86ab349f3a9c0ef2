use vstd::prelude::*;
use rand::Rng;

verus! {

/// The random number generator of the current thread.
#[verifier::external_type_specification]
#[verifier::external_body]
pub struct ExThreadRng(rand::rngs::ThreadRng);

/// Calls `rand::thread_rng`, taken on trust: it hands out the current
/// thread's generator; nothing is stated of its state.
#[verifier::external_body]
fn thread_rng() -> (r: rand::rngs::ThreadRng) {
    rand::thread_rng()
}

/// Calls `Rng::gen_range` of the `rand` crate on `0..upper_bound`, taken
/// on trust: the number is below `upper_bound` (it is unsigned, so at
/// least zero). The range must not be empty, or the call panics; which
/// number comes is chance and is not stated.
#[verifier::external_body]
fn gen_below(rng: &mut rand::rngs::ThreadRng, upper_bound: u64) -> (r: u64)
    requires
        upper_bound > 0,
    ensures
        r < upper_bound,
{
    rng.gen_range(0..upper_bound)
}

/// A message may get a random reaction when someone else wrote it and it
/// carries neither attachments nor embeds.
pub open spec fn eligible(is_own: bool, attachment_count: nat, embed_count: nat) -> bool {
    !is_own && attachment_count == 0 && embed_count == 0
}

/// The bot's own messages, and messages with an attachment or an embed,
/// never get a random reaction; a message of someone else with neither
/// does.
pub proof fn lemma_eligible_exactly_plain_messages(
    is_own: bool,
    attachment_count: nat,
    embed_count: nat,
)
    ensures
        is_own ==> !eligible(is_own, attachment_count, embed_count),
        attachment_count > 0 ==> !eligible(is_own, attachment_count, embed_count),
        embed_count > 0 ==> !eligible(is_own, attachment_count, embed_count),
        (!is_own && attachment_count == 0 && embed_count == 0) ==> eligible(
            is_own,
            attachment_count,
            embed_count,
        ),
{
}

pub fn random_react_eligible(is_own: bool, attachment_count: usize, embed_count: usize) -> (r: bool)
    ensures
        r == eligible(is_own, attachment_count as nat, embed_count as nat),
        r == (!is_own && attachment_count == 0 && embed_count == 0),
        embed_count > 0 ==> !r,
        attachment_count > 0 ==> !r,
{
    !is_own && attachment_count == 0 && embed_count == 0
}

/// An eligible message gets a reaction when the roll, a number below the
/// configured bound, is zero.
pub fn react_on_roll(is_own: bool, attachment_count: usize, embed_count: usize, roll: u64) -> (r: bool)
    ensures
        r == (eligible(is_own, attachment_count as nat, embed_count as nat) && roll == 0),
        r == (!is_own && attachment_count == 0 && embed_count == 0 && roll == 0),
{
    random_react_eligible(is_own, attachment_count, embed_count) && roll == 0
}

/// Rolls for a reaction to a message. An eligible message is rolled
/// for, with a number below `upper_bound`, and gets a reaction exactly when
/// the roll is zero; others are not rolled for and get none. Gives the
/// decision and the roll.
pub fn random_react_roll(
    is_own: bool,
    attachment_count: usize,
    embed_count: usize,
    upper_bound: u64,
) -> (r: (bool, Option<u64>))
    requires
        upper_bound > 0,
    ensures
        r.1 is Some <==> (!is_own && attachment_count == 0 && embed_count == 0),
        r.1 matches Some(roll) ==> roll < upper_bound,
        r.0 == (r.1 == Some(0u64)),
        r.0 == (eligible(is_own, attachment_count as nat, embed_count as nat) && r.1 == Some(
            0u64,
        )),
{
    if random_react_eligible(is_own, attachment_count, embed_count) {
        let mut rng = thread_rng();
        let roll = gen_below(&mut rng, upper_bound);
        let reacts = react_on_roll(is_own, attachment_count, embed_count, roll);
        (reacts, Some(roll))
    } else {
        (false, None)
    }
}

/// Whether to react to a message: an eligible message is rolled for, with
/// one chance in `upper_bound`; others never get a reaction.
pub fn should_random_react(
    is_own: bool,
    attachment_count: usize,
    embed_count: usize,
    upper_bound: u64,
) -> (r: bool)
    requires
        upper_bound > 0,
    ensures
        r ==> eligible(is_own, attachment_count as nat, embed_count as nat),
        (is_own || attachment_count > 0 || embed_count > 0) ==> !r,
        upper_bound == 1 ==> r == eligible(is_own, attachment_count as nat, embed_count as nat),
{
    let (reacts, _roll) = random_react_roll(is_own, attachment_count, embed_count, upper_bound);
    reacts
}

} // verus!
