pub mod menu;
pub mod board_widget;
pub mod game_ui;
