//! The decisions behind the Dagster Designer desktop shell: where its files live, how its
//! backend is started, awaited and stopped, and what its menu bar holds.

pub mod backend;
pub mod events;
pub mod folder;
pub mod menu;
pub mod menu_laws;
pub mod page_menu;
pub mod paths;
pub mod preferences;
pub mod projects;
pub mod save;
pub mod spawn;
pub mod stale;
pub mod stop;
pub mod text;
pub mod view_laws;
