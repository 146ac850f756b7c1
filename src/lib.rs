pub mod demux;
pub mod direction;
pub mod sdp_type;
pub mod text;
pub mod sdp_model;
pub mod lookup;
pub mod transceiver;
pub mod builder;
pub mod outside;
pub mod error;
pub mod section;
pub mod assemble;
pub mod description;
pub mod matcher;
pub mod session;
pub mod sdp_bridge;
