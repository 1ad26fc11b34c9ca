//! Conversion between resistor color-band sequences and resistance values.
pub mod band_color;
pub mod error;
pub mod resistor;
pub mod text;

pub use band_color::BandColor;
pub use error::ColorError;
pub use resistor::Resistor;
