//! Window configuration and the platform window attributes built from it
//! at startup.

use vstd::prelude::*;

verus! {

/// The configuration surface consumed at startup. Sizes are logical
/// pixels; the scale factor maps them to physical ones. The background is
/// a packed ARGB color; the icon is an opaque resource handle the
/// embedding resolves.
#[derive(Debug, Clone, PartialEq, Eq)]
pub struct WindowConfig {
    pub title: String,
    pub width: u32,
    pub height: u32,
    pub min_width: Option<u32>,
    pub min_height: Option<u32>,
    pub max_width: Option<u32>,
    pub max_height: Option<u32>,
    pub decorations: bool,
    pub transparent: bool,
    pub icon: Option<u64>,
    pub background: u32,
}

/// The attribute set handed to the platform layer when the native window
/// is created.
#[derive(Debug, Clone, PartialEq, Eq)]
pub struct WindowAttributes {
    /// The window is created invisible and shown only once the
    /// accessibility adapter is in place.
    pub visible: bool,
    pub title: String,
    pub decorations: bool,
    pub transparent: bool,
    pub icon: Option<u64>,
    pub width: u32,
    pub height: u32,
    /// Set only when both a minimum width and a minimum height are
    /// configured.
    pub min_size: Option<(u32, u32)>,
    /// Set only when both a maximum width and a maximum height are
    /// configured.
    pub max_size: Option<(u32, u32)>,
}

/// What [`build_window_attributes`] returns for a configuration.
pub open spec fn spec_build_window_attributes(config: WindowConfig) -> WindowAttributes {
    WindowAttributes {
        visible: false,
        title: config.title,
        decorations: config.decorations,
        transparent: config.transparent,
        icon: config.icon,
        width: config.width,
        height: config.height,
        min_size: if config.min_width is Some && config.min_height is Some {
            Some((config.min_width->0, config.min_height->0))
        } else {
            None
        },
        max_size: if config.max_width is Some && config.max_height is Some {
            Some((config.max_width->0, config.max_height->0))
        } else {
            None
        },
    }
}

/// Builds the platform window attributes from the configuration: invisible
/// at first, sized and titled as configured, with minimum and maximum
/// sizes only where both dimensions are present.
pub fn build_window_attributes(config: &WindowConfig) -> (r: WindowAttributes)
    ensures
        r == spec_build_window_attributes(*config),
{
    let min_size: Option<(u32, u32)> = match (&config.min_width, &config.min_height) {
        (Some(w), Some(h)) => Some((*w, *h)),
        _ => None,
    };
    let max_size: Option<(u32, u32)> = match (&config.max_width, &config.max_height) {
        (Some(w), Some(h)) => Some((*w, *h)),
        _ => None,
    };
    WindowAttributes {
        visible: false,
        title: config.title.clone(),
        decorations: config.decorations,
        transparent: config.transparent,
        icon: config.icon,
        width: config.width,
        height: config.height,
        min_size,
        max_size,
    }
}

} // verus!
