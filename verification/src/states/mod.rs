pub mod cleanup;
pub mod init;
pub mod main_loop;
pub mod new;
