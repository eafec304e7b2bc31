use vstd::prelude::*;

verus! {

/// What a caller hears first.
pub const APP_GREETING: &'static str = "Hi.  How may I help you?";

/// What the bot says to acknowledge a caller while the answer is being prepared.
pub const PAUSE_TEXT: &'static str = "Got it.";

/// What a caller hears who is played a recording.
pub const PLAY_TEXT: &'static str =
    "Hello. You are hearing this\n    from a Twilio Play verb. These bytes are\n    MP3 encoded.";

/// Where OpenAI answers chats.
pub const OPENAI_URL: &'static str = "https://api.openai.com/v1/chat/completions";

/// Where Deepgram transcribes streams. It is told what a phone line sounds like, and to send what
/// it makes of it while it is still at it.
pub const DEEPGRAM_URL: &'static str =
    "wss://api.deepgram.com/v1/listen?encoding=mulaw&sample_rate=8000&interim_results=true&endpointing=false";

/// The texts that end a clause, after which the answer so far can be spoken.
pub const ASCII_CLAUSE_ENDINGS: [&'static str; 4] = [".", "?", "!", ";"];

/// Length of the WAV header in front of the audio that Google synthesizes.
pub const GOOGLE_WAV_HEADER_SZ: usize = 58;

/// How long a caller may be silent before the bot takes its turn.
pub const POLITENESS_DELAY_MILLIS: u128 = 1_500;

} // verus!
