pub mod chug;
pub mod embed;
pub mod help;
pub mod image;
pub mod join;
pub mod leave;
pub mod voice;
pub mod voices;
