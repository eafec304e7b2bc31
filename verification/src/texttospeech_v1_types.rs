use vstd::prelude::*;

verus! {

/// How synthesized audio is encoded.
#[allow(clippy::upper_case_acronyms)]
pub enum AudioConfigAudioEncoding {
    MP3,
    MULAW,
}

/// The voice's gender.
#[allow(clippy::upper_case_acronyms)]
pub enum VoiceSelectionParamsSsmlGender {
    FEMALE,
}

/// What the audio is to be like.
pub struct AudioConfig {
    pub audio_encoding: Option<AudioConfigAudioEncoding>,
    pub sample_rate_hertz: Option<i32>,
}

/// What is to be spoken.
pub struct SynthesisInput {
    pub text: Option<String>,
}

/// Who is to speak it.
pub struct VoiceSelectionParams {
    pub language_code: Option<String>,
    pub name: Option<String>,
    pub ssml_gender: Option<VoiceSelectionParamsSsmlGender>,
}

/// A request to Google's text-to-speech service.
pub struct SynthesizeSpeechRequest {
    pub audio_config: Option<AudioConfig>,
    pub input: Option<SynthesisInput>,
    pub voice: Option<VoiceSelectionParams>,
}

} // verus!
