pub mod date;
pub mod decode;
pub mod encode;
pub mod hello;
pub mod json;
pub mod mapper;
pub mod schema;
pub mod text;
pub mod upstream;
