pub mod tchoir;
