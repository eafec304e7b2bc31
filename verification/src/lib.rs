//! A phone agent: callers speak to it over a Twilio media stream, Deepgram writes down what they
//! say, OpenAI answers and Google reads the answer out.
//!
//! The library holds the decisions. Whatever waits for the outside world (sockets, HTTP services,
//! channels between tasks, the database, the clock) is described to the surrounding program as an
//! action; the program performs it and hands back what came of it.

pub mod after_call_laws;
pub mod answer_laws;
pub mod b64;
pub mod bot_side;
pub mod call_laws;
pub mod caller_side;
pub mod consts;
pub mod conversation_laws;
pub mod conversation_state;
pub mod db_types;
pub mod deepgram_types;
pub mod error;
pub mod event_stream;
pub mod handlers;
pub mod laws;
pub mod openai_types;
pub mod outbound;
pub mod storage;
pub mod summaries;
pub mod tasks;
pub mod texttospeech_v1_types;
pub mod twilio_types;
pub mod types;
pub mod utils;
