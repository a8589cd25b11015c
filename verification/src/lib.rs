//! A creature simulation's rules, verified: the behaviour state machine and
//! decisions of creatures, the spatial index used for neighbourhood queries,
//! pooling of particle slots, sprite atlas layout, audio channel queues,
//! floating UI visibility, the switches of the visual features, and the debug
//! console's state and commands.

pub mod atlas;
pub mod audio;
pub mod commands;
pub mod console;
pub mod creature;
pub mod decision;
pub mod features;
pub mod floating_ui;
pub mod history;
pub mod lifecycle;
pub mod needs;
pub mod particles;
pub mod resource;
pub mod spatial;
pub mod speech;
