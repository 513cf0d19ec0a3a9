pub mod friend_code;
pub mod words;
pub mod message;
pub mod friend_request;
