pub mod text;
pub mod i18n;
pub mod config;
pub mod intent;
pub mod vision;
pub mod state;
pub mod messages;
pub mod cooking;
pub mod render;
pub mod speech;
pub mod revision;
pub mod task;
pub mod step;
pub mod recipe_step;
pub mod cooking_step;
pub mod action;
pub mod recipe;
pub mod cooking_task;
pub mod viewing_task;
pub mod routing;
pub mod recognition;
pub mod agent;
pub mod marker;
pub mod seeing;
pub mod context;
