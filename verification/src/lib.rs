//! Planning of moving-head light moves along spatial paths, and their encoding as console
//! cues.
//!
//! A move takes a set of lights along a path in space. [`move_calculator`] cuts the path
//! ([`path`]) into frames, aims every light ([`light`]) at the point of each frame, and
//! encodes the frames as the commands that record one cue per frame on the console.
//! [`transport`] says in which order the commands are sent, and where the sending stops.
//!
//! All quantities are exact: coordinates, angles and times are decimal fixed-point numbers
//! ([`fixed::Fixed`]), and a position along a path is a fraction
//! ([`percentage::Percentage`]). The one thing that the library leaves to its caller is the
//! arctangent: the functions that aim a light take it as an argument.
//!
//! The other modules hold the state behind the windows of a control panel: the lists in
//! which lights and a path are chosen ([`toggleable_item`], [`only_one_toggleable_item`],
//! [`select_lights_modal`], [`select_path_modal`]), the settings of a move
//! ([`output_section`]), the forms for new lights and paths, the rules of the store
//! ([`db`]), and the preferences ([`preferences`]).
pub mod add_bezier;
pub mod add_cubic_bezier;
pub mod add_light_window;
pub mod add_line_window;
pub mod db;
pub mod debug_point_at;
pub mod decimal;
pub mod fixed;
pub mod light;
pub mod move_calculator;
pub mod number_input;
pub mod only_one_toggleable_item;
pub mod output_section;
pub mod percentage;
pub mod path;
pub mod point;
pub mod preferences;
pub mod select_lights_modal;
pub mod select_path_modal;
pub mod toggleable_item;
pub mod transport;
