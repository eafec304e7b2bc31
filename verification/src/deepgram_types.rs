use std::collections::HashMap;
use uuid::Uuid;
use vstd::prelude::*;

verus! {

/// The UUIDs by which Deepgram names its requests and models, from the crate `uuid`. The library
/// carries them through and never looks inside.
#[verifier::external_type_specification]
#[verifier::external_body]
pub struct ExUuid(Uuid);

/// A piece of the transcript of what the caller says.
#[derive(Debug)]
pub struct StreamingResponse {
    pub channel_index: (u16, u16),
    /// Deepgram will not revise this piece any more.
    pub is_final: bool,
    pub speech_final: Option<bool>,
    pub channel: Channel,
}

/// The readings of one audio channel, the likeliest first.
#[derive(Default, PartialEq, Debug)]
pub struct Channel {
    pub alternatives: Vec<Alternative>,
}

/// One reading of a stretch of audio.
#[derive(Default, PartialEq, Debug)]
pub struct Alternative {
    pub transcript: String,
    pub words: Vec<Word>,
}

/// One word of a reading.
#[derive(Default, PartialEq, Debug)]
pub struct Word {
    pub word: String,
}

/// What Deepgram sends at the end of a stream.
#[derive(Debug)]
pub struct StreamingMeta {
    pub transaction_key: Option<String>,
    pub request_id: Uuid,
    pub sha256: String,
    pub channels: u16,
    pub models: Vec<Uuid>,
    pub model_info: HashMap<Uuid, ModelInfo>,
}

/// A model that Deepgram used.
#[derive(Debug)]
pub struct ModelInfo {
    pub name: String,
    pub version: String,
    pub arch: String,
}

/// A message of a Deepgram stream.
#[derive(Debug)]
pub enum StreamMessage {
    StreamingResponse(StreamingResponse),
    StreamingMeta(StreamingMeta),
}

impl Clone for StreamingResponse {
    fn clone(&self) -> (copy: Self)
        ensures
            copy.same_as(*self),
    {
        StreamingResponse {
            channel_index: self.channel_index,
            is_final: self.is_final,
            speech_final: self.speech_final,
            channel: self.channel.clone(),
        }
    }
}

impl Channel {
    /// The readings are the same, in the same order.
    pub open spec fn reads_as(&self, other: Channel) -> bool {
        &&& self.alternatives@.len() == other.alternatives@.len()
        &&& forall|i: int|
            0 <= i < self.alternatives@.len() ==> {
                &&& (#[trigger] self.alternatives@[i]).transcript
                    == other.alternatives@[i].transcript
                &&& self.alternatives@[i].words@ == other.alternatives@[i].words@
            }
    }
}

impl Clone for Channel {
    fn clone(&self) -> (copy: Self)
        ensures
            copy.reads_as(*self),
    {
        Channel { alternatives: self.alternatives.clone() }
    }
}

impl Clone for Alternative {
    fn clone(&self) -> (copy: Self)
        ensures
            copy.transcript == self.transcript,
            copy.words@ == self.words@,
    {
        let words = self.words.clone();
        assert(words@ =~= self.words@);
        Alternative { transcript: self.transcript.clone(), words }
    }
}

impl Clone for Word {
    fn clone(&self) -> (copy: Self)
        ensures
            copy == *self,
    {
        Word { word: self.word.clone() }
    }
}

impl Clone for ModelInfo {
    fn clone(&self) -> (copy: Self)
        ensures
            copy == *self,
    {
        ModelInfo {
            name: self.name.clone(),
            version: self.version.clone(),
            arch: self.arch.clone(),
        }
    }
}

impl StreamingMeta {
    /// Both say the same.
    pub open spec fn same_as(&self, other: StreamingMeta) -> bool {
        &&& self.transaction_key == other.transaction_key
        &&& self.request_id == other.request_id
        &&& self.sha256 == other.sha256
        &&& self.channels == other.channels
        &&& self.models@ == other.models@
        &&& self.model_info@ == other.model_info@
    }
}

impl Clone for StreamingMeta {
    fn clone(&self) -> (copy: Self)
        ensures
            copy.same_as(*self),
    {
        let mut models: Vec<Uuid> = Vec::new();
        for i in 0..self.models.len()
            invariant
                models@ == self.models@.take(i as int),
        {
            models.push(self.models[i]);
            assert(models@ =~= self.models@.take(i + 1));
        }
        assert(models@ =~= self.models@);
        StreamingMeta {
            transaction_key: self.transaction_key.clone(),
            request_id: self.request_id,
            sha256: self.sha256.clone(),
            channels: self.channels,
            models,
            model_info: self.model_info.clone(),
        }
    }
}

impl Clone for StreamMessage {
    fn clone(&self) -> (copy: Self)
        ensures
            match self {
                StreamMessage::StreamingResponse(said) => copy matches
                    StreamMessage::StreamingResponse(same) && same.same_as(*said),
                StreamMessage::StreamingMeta(meta) => copy matches
                    StreamMessage::StreamingMeta(same) && same.same_as(*meta),
            },
    {
        match self {
            StreamMessage::StreamingResponse(said) => StreamMessage::StreamingResponse(said.clone()),
            StreamMessage::StreamingMeta(meta) => StreamMessage::StreamingMeta(meta.clone()),
        }
    }
}

impl StreamingResponse {
    /// Both say the same.
    pub open spec fn same_as(&self, other: StreamingResponse) -> bool {
        &&& self.channel_index == other.channel_index
        &&& self.is_final == other.is_final
        &&& self.speech_final == other.speech_final
        &&& self.channel.reads_as(other.channel)
    }

    /// There is a reading to go by.
    pub open spec fn has_transcript(&self) -> bool {
        self.channel.alternatives@.len() > 0
    }

    /// What the caller said, by the likeliest reading.
    pub open spec fn spec_transcript(&self) -> Seq<char> {
        self.channel.alternatives@[0].transcript@
    }

    /// What the caller said, by the likeliest reading.
    pub fn transcript(&self) -> (text: &str)
        requires
            self.has_transcript(),
        ensures
            text@ == self.spec_transcript(),
    {
        self.channel.alternatives[0].transcript.as_str()
    }
}

} // verus!
