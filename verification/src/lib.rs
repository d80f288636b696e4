//! A verified core for the Beverly UI component library: the state
//! machines, selection rules, text editing and request building behind its
//! widgets, independent of the rendering engine.
pub mod text;
pub mod input;
pub mod pagination;
pub mod dropdown;
pub mod select;
pub mod tabs;
pub mod theme;
pub mod checkbox;
pub mod radio;
pub mod button_group;
pub mod modal;
pub mod form;
pub mod file_input;
pub mod search;
pub mod avatar;
pub mod alert;
pub mod nav_button;
pub mod button;
pub mod card;
pub mod table;
pub mod animation;
pub mod slider;
pub mod link;
pub mod footer;
pub mod container;
pub mod sidebar;
pub mod loading;
pub mod play_button;
