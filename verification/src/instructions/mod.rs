pub mod deposit;
pub mod init_pool;
pub mod sequence;
pub mod swap;
pub mod withdraw;
