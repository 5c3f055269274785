//! Stand-ins for two services of the style engine that the fixed document
//! never needs: font metrics and speculative painters.

use vstd::prelude::*;

verus! {

/// The font families that a base size can be asked for.
#[derive(Clone, Copy, Debug, PartialEq, Eq, Structural)]
pub enum GenericFontFamily {
    Unspecified,
    Serif,
    SansSerif,
    Monospace,
    Cursive,
    Fantasy,
    SystemUi,
}

/// The metrics of a font, in CSS pixels. A metric that the font does not
/// give is `None`.
#[derive(Clone, Copy, Debug, PartialEq, Eq, Structural)]
pub struct FontMetrics {
    pub x_height: Option<u32>,
    pub zero_advance_measure: Option<u32>,
    pub cap_height: Option<u32>,
    pub ic_width: Option<u32>,
    pub ascent: u32,
}

impl Default for FontMetrics {
    /// No metric is known.
    fn default() -> (metrics: Self)
        ensures
            metrics == (FontMetrics {
                x_height: None,
                zero_advance_measure: None,
                cap_height: None,
                ic_width: None,
                ascent: 0,
            }),
    {
        FontMetrics { x_height: None, zero_advance_measure: None, cap_height: None, ic_width: None, ascent: 0 }
    }
}

/// A painter that was registered for speculative painting. The dummy
/// registry holds none, so no value of this type is ever handed out.
#[derive(Clone, Copy, Debug, PartialEq, Eq, Structural)]
pub struct RegisteredSpeculativePainter {
    pub index: usize,
}

/// A font metrics provider that knows no font.
#[derive(Clone, Copy, Debug, PartialEq, Eq, Structural)]
pub struct DummyFontMetricsProvider;

impl DummyFontMetricsProvider {
    /// The base size, in CSS pixels, of every generic family.
    pub open spec fn spec_base_size() -> u32 {
        13
    }

    /// The metrics of a font: none is known, whatever is asked.
    pub fn query_font_metrics(&self, vertical: bool, base_size: u32) -> (metrics: FontMetrics)
        ensures
            metrics == (FontMetrics {
                x_height: None,
                zero_advance_measure: None,
                cap_height: None,
                ic_width: None,
                ascent: 0,
            }),
    {
        FontMetrics::default()
    }

    /// The base size of a generic family, in CSS pixels: the same for
    /// every family.
    pub fn base_size_for_generic(&self, generic: GenericFontFamily) -> (size: u32)
        ensures
            size == Self::spec_base_size(),
    {
        13
    }
}

/// A registry of speculative painters that holds none.
#[derive(Clone, Copy, Debug, PartialEq, Eq, Structural)]
pub struct DummyRegisteredSpeculativePainters;

impl DummyRegisteredSpeculativePainters {
    /// The painter registered under `name`: there is none.
    pub fn get(&self, name: &str) -> (painter: Option<RegisteredSpeculativePainter>)
        ensures
            painter is None,
    {
        None
    }
}

} // verus!
