//! Host-driven language-model operations: tool-call parsing and repair,
//! stream aggregation, record replay and the host boundary around them.
pub mod answer_laws;
pub mod asking_laws;
pub mod call_laws;
pub mod constructors;
pub mod document_laws;
pub mod driver;
pub mod error;
pub mod error_text;
pub mod function_laws;
pub mod generate;
pub mod generate_options;
pub mod generation;
pub mod generation_control;
pub mod handles;
pub mod host_args;
pub mod host_calls;
pub mod host_error;
pub mod host_laws;
pub mod host_requests;
pub mod host_run_laws;
pub mod json;
pub mod json_text;
pub mod match_laws;
pub mod mending_laws;
pub mod message;
pub mod openai_output;
pub mod operation;
pub mod options;
pub mod output_laws;
pub mod parse_tool_call;
pub mod protocol;
pub mod reading_laws;
pub mod rebuild_laws;
pub mod recording;
pub mod repair_laws;
pub mod repair_result;
pub mod replay;
pub mod replay_keys;
pub mod replay_laws;
pub mod replay_stream;
pub mod replay_wire;
pub mod request_laws;
pub mod response_messages;
pub mod result;
pub mod result_wire;
pub mod run_laws;
pub mod sampling;
pub mod start_laws;
pub mod step_laws;
pub mod stream_laws;
pub mod stream_part;
pub mod stream_pump;
pub mod stream_text;
pub mod text;
pub mod tool;
pub mod types;
pub mod value_laws;
pub mod wire;
pub mod wire_laws;
pub mod wire_read;
pub mod written_laws;
