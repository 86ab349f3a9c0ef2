pub mod eleven_labs_models;
pub mod igdb_models;
pub mod network_models;
pub mod open_ai_models;
pub mod requests;
pub mod stable_diffusion_models;
