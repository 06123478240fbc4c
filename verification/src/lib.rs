//! Local workstation control plane: capsules, routing, restore planning and
//! cutover gates, with every rule stated as a contract and proved.

pub mod attention;
pub mod capsule;
pub mod control_plane;
pub mod cutover;
pub mod events;
pub mod flags;
pub mod identity;
pub mod isolation;
pub mod ports;
pub mod restore;
pub mod routing;
pub mod runflow;
pub mod runtime_meta;
pub mod score;
pub mod shadow;
pub mod shell;
pub mod stead;
pub mod store;
pub mod supervisor;
pub mod text;
pub mod tls;
pub mod text_map;
