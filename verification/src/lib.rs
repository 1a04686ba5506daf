//! Integer logic of a minimal Direct3D 11 renderer: the decisions of its
//! window message loop, the layout of its vertices, and the byte widths and
//! counts it hands to the GPU.

pub mod event_loop;
pub mod layout;
