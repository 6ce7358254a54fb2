//! Desktop logic of a gesture-driven desktop shell: how start-menu shortcuts
//! and desktop items are sorted into categories, which top-level windows are
//! listed to the user, and how icons and wallpapers become data URIs.

pub mod text;
pub mod category;
pub mod index;
pub mod desktop;
pub mod data_uri;
pub mod window_list;
pub mod input;
pub mod greeting;
pub mod win_path;
