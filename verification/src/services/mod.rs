pub mod ai_chat_service;
pub mod emoji_service;
pub mod game_data_service;
pub mod image_gen_service;
pub mod speech_generation_service;
