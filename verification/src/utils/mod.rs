pub mod webutils;
