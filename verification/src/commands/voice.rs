use vstd::prelude::*;
use crate::network::eleven_labs_models::Voice;
use crate::services::speech_generation_service::find_voice_by_name;

verus! {

pub const VOICE_NOT_FOUND_REPLY: &'static str = "A voice with that name was not found. Please try again with a valid voice.";

pub const VOICE_CREATION_FAILED_REPLY: &'static str = "Sorry, something went wrong during voice creation.";

pub const JOIN_FAILED_REPLY: &'static str = "Sorry, I was unable to join the voice channel.";

pub const VOICE_FILENAME: &'static str = "voice.mp3";

/// Where a voice command stands.
#[derive(Debug, Clone, Copy, PartialEq, Eq, Structural)]
pub enum VoiceStage {
    /// Waiting for the list of voices.
    FindVoice,
    /// Waiting for the generated speech.
    GenerateSpeech,
    /// Waiting to learn the voice channel of the user who asked.
    Deliver,
    /// Waiting for the bot to join that channel.
    Join,
    /// Nothing is left to do.
    Done,
}

/// What the outside world reported to a voice command.
#[derive(Debug)]
pub enum VoiceEvent {
    /// The voices that the generator offers.
    VoicesListed(Vec<Voice>),
    /// Whether the generator produced speech.
    SpeechGenerated(bool),
    /// The voice channel of the user who asked, if any.
    UserChannelFound(Option<u64>),
    /// Whether joining the channel succeeded.
    JoinFinished(bool),
}

/// What a voice command does next.
#[derive(Debug, PartialEq, Eq)]
pub enum VoiceAction {
    /// Generate the speech with the voice of this id.
    GenerateSpeech(String),
    /// Look up the voice channel of the user who asked.
    FindUserChannel,
    /// Reply with this text; the command is over.
    Reply(String),
    /// Reply with the speech attached under this file name; the command is over.
    AttachAudio(String),
    /// Join this voice channel.
    JoinChannel(u64),
    /// Write the speech to this file and play it; the command is over.
    PlayAudio(String),
}

/// A voice command in progress: the name of the voice asked for, and its stage.
#[derive(Debug)]
pub struct VoiceCommand {
    pub voice_name: String,
    pub stage: VoiceStage,
}

/// How far a command has come: each step moves it further.
pub open spec fn stage_rank(stage: VoiceStage) -> nat {
    match stage {
        VoiceStage::FindVoice => 0,
        VoiceStage::GenerateSpeech => 1,
        VoiceStage::Deliver => 2,
        VoiceStage::Join => 3,
        VoiceStage::Done => 4,
    }
}

/// The event that a stage waits for.
pub open spec fn accepts(stage: VoiceStage, event: VoiceEvent) -> bool {
    match event {
        VoiceEvent::VoicesListed(_) => stage == VoiceStage::FindVoice,
        VoiceEvent::SpeechGenerated(_) => stage == VoiceStage::GenerateSpeech,
        VoiceEvent::UserChannelFound(_) => stage == VoiceStage::Deliver,
        VoiceEvent::JoinFinished(_) => stage == VoiceStage::Join,
    }
}

/// Voice `i` is the first voice with the given name.
pub open spec fn first_voice_named(voices: Seq<Voice>, name: Seq<char>, i: int) -> bool {
    0 <= i < voices.len() && voices[i].name@ == name && forall|j: int|
        0 <= j < i ==> voices[j].name@ != name
}

impl VoiceCommand {
    pub fn new(voice_name: String) -> (r: Self)
        ensures
            r.voice_name == voice_name,
            r.stage == VoiceStage::FindVoice,
    {
        VoiceCommand { voice_name, stage: VoiceStage::FindVoice }
    }

    /// The next stage and action: a voice of that name leads to speech
    /// generation, speech to the user's channel, a channel to joining it,
    /// and joining to playing; no voice, no speech or a failed join end
    /// the command with a reply, and no channel with the speech attached.
    pub fn step(&mut self, event: VoiceEvent) -> (r: VoiceAction)
        requires
            accepts(old(self).stage, event),
        ensures
            final(self).voice_name == old(self).voice_name,
            stage_rank(final(self).stage) > stage_rank(old(self).stage),
            match event {
                VoiceEvent::VoicesListed(voices) => {
                    &&& (r is GenerateSpeech) == (exists|i: int|
                        0 <= i < voices@.len() && #[trigger] voices@[i].name@
                            == old(self).voice_name@)
                    &&& (r matches VoiceAction::GenerateSpeech(id) ==> final(self).stage
                        == VoiceStage::GenerateSpeech && forall|i: int|
                        #[trigger] first_voice_named(voices@, old(self).voice_name@, i) ==> id
                            == voices@[i].voice_id)
                    &&& (!(r is GenerateSpeech) ==> final(self).stage == VoiceStage::Done && (
                    r matches VoiceAction::Reply(text) && text@ == VOICE_NOT_FOUND_REPLY@))
                },
                VoiceEvent::SpeechGenerated(has_audio) => if has_audio {
                    final(self).stage == VoiceStage::Deliver && r == VoiceAction::FindUserChannel
                } else {
                    final(self).stage == VoiceStage::Done && (r matches VoiceAction::Reply(text)
                        && text@ == VOICE_CREATION_FAILED_REPLY@)
                },
                VoiceEvent::UserChannelFound(channel) => match channel {
                    Some(c) => final(self).stage == VoiceStage::Join && r == VoiceAction::JoinChannel(c),
                    None => final(self).stage == VoiceStage::Done && (r matches VoiceAction::AttachAudio(
                        name,
                    ) && name@ == VOICE_FILENAME@),
                },
                VoiceEvent::JoinFinished(joined) => final(self).stage == VoiceStage::Done && if joined {
                    r matches VoiceAction::PlayAudio(name) && name@ == VOICE_FILENAME@
                } else {
                    r matches VoiceAction::Reply(text) && text@ == JOIN_FAILED_REPLY@
                },
            },
    {
        match event {
            VoiceEvent::VoicesListed(voices) => match find_voice_by_name(&voices, &self.voice_name) {
                Some(i) => {
                    self.stage = VoiceStage::GenerateSpeech;
                    let id = voices[i].voice_id.clone();
                    proof {
                        assert(first_voice_named(voices@, self.voice_name@, i as int));
                        assert forall|k: int|
                            #[trigger] first_voice_named(voices@, self.voice_name@, k) implies k
                            == i by {
                            if k < i {
                                assert(voices@[k].name@ != self.voice_name@);
                            } else if k > i {
                                assert(voices@[i as int].name@ != self.voice_name@);
                            }
                        }
                    }
                    VoiceAction::GenerateSpeech(id)
                },
                None => {
                    self.stage = VoiceStage::Done;
                    VoiceAction::Reply(String::from_str(VOICE_NOT_FOUND_REPLY))
                },
            },
            VoiceEvent::SpeechGenerated(has_audio) => {
                if has_audio {
                    self.stage = VoiceStage::Deliver;
                    VoiceAction::FindUserChannel
                } else {
                    self.stage = VoiceStage::Done;
                    VoiceAction::Reply(String::from_str(VOICE_CREATION_FAILED_REPLY))
                }
            },
            VoiceEvent::UserChannelFound(channel) => match channel {
                Some(c) => {
                    self.stage = VoiceStage::Join;
                    VoiceAction::JoinChannel(c)
                },
                None => {
                    self.stage = VoiceStage::Done;
                    VoiceAction::AttachAudio(String::from_str(VOICE_FILENAME))
                },
            },
            VoiceEvent::JoinFinished(joined) => {
                self.stage = VoiceStage::Done;
                if joined {
                    VoiceAction::PlayAudio(String::from_str(VOICE_FILENAME))
                } else {
                    VoiceAction::Reply(String::from_str(JOIN_FAILED_REPLY))
                }
            },
        }
    }
}

} // verus!
