//! Verified core of a small tool-call bridge that answers `web_search` and
//! `web_fetch` requests, first through the Parallel search service and, when
//! that fails, through Ollama's web API.
pub mod apperror;
pub mod metadata;
pub mod text;
pub mod tool_call_parser;
pub mod handler;
