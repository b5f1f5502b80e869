pub mod http_stream;
pub mod serve;
pub mod whitespace;
