pub mod init_arm64;
pub mod paging;
