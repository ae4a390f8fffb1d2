//! A dataflow pipeline library: buffers and channels that carry data between
//! processing nodes, the graph that holds the nodes, and the state machines
//! that decide when a node runs, pauses or stops.

pub mod pipeline_traits;
pub mod data_management;
pub mod thread_state_space;
pub mod pipeline_thread;
pub mod name_order;
pub mod node_traits;
pub mod node_builder;
pub mod pipeline_graph;
pub mod buffer_management;
pub mod interfaces;
pub mod std_channels;
pub mod linear_comms;
pub mod multichannel_comms;
pub mod multiplexed_comms;
pub mod comms_top_level;
pub mod pipeline_node;
pub mod pipeline;
pub mod comms_core;
pub mod scheduler;
pub mod interleaving;
pub mod interleaved_separator;
pub mod formats;
pub mod node_types;
pub mod series_nodes;
pub mod audio_blocks;
pub mod logging;
pub mod step_dispatch;
pub mod building_node;
pub mod sample_cursor;
pub mod pipeline_recipe;
