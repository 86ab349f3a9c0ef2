pub mod number_utils;
pub mod text;
