//! Adaptive theming for desktop window chrome and controls.
//!
//! Given the host platform and a snapshot of the system preferences (dark
//! mode, accent colour), the library produces a complete [`theme::Theme`]:
//! every colour of the title bar, window controls, inputs, buttons and text.
//! Native preference queries are made by the caller; what they returned is
//! handed in as a [`preferences::ProbeReading`].

pub mod color;
pub mod platform;
pub mod preferences;
pub mod text;
pub mod theme;
