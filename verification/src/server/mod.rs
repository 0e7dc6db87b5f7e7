pub mod tcp_server;

pub use tcp_server::TcpServer;
