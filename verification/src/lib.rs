pub mod messages;
pub mod bang_bang;
pub mod sequencer;
pub mod timer;
pub mod measurements;
pub mod bar_graph;
pub mod display;
pub mod dispatcher;
pub mod outbound;
pub mod inbound;
pub mod watchdog;
pub mod analog_out;
pub mod network;
pub mod water_tank;
pub mod tools;
