//! What the library adds to the filter scripts.
pub mod llm_prompt;
