pub mod choir;
pub mod gate;
pub mod openai;
pub mod tool_loop;
