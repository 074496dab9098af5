pub mod black_board;
pub mod render_context;
pub mod render_pass;
