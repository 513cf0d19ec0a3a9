pub mod channels;
pub mod friend_request;
pub mod messaging;
