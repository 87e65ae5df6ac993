pub mod opened_repo_view;
pub mod start_view;
