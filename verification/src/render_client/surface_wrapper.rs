//! The surface's configuration and life cycle.

use crate::render_client::event::{LoopEvent, Platform};
use vstd::prelude::*;

verus! {

/// Size and formats of the surface.
#[derive(Debug, PartialEq, Eq)]
pub struct SurfaceConfig {
    pub width: u32,
    pub height: u32,
    pub format: wgpu::TextureFormat,
    pub view_formats: Vec<wgpu::TextureFormat>,
}

/// Stands for the surface that the device layer holds.
#[derive(Debug, PartialEq, Eq)]
pub struct Surface;

/// What came of one attempt to take the next image of the swapchain.
#[derive(Clone, Copy, Debug, PartialEq, Eq, Structural)]
pub enum Acquired {
    Frame,
    Lost,
}

/// What to do after an attempt to take the next image.
#[derive(Clone, Copy, Debug, PartialEq, Eq, Structural)]
pub enum AcquireStep {
    /// Draw into the image.
    Draw,
    /// Configure the surface again, as it was configured, and try once more.
    Reconfigure,
}

/// Whether the surface is lost for good: the image was lost again after an
/// earlier loss in this frame. There is no third attempt.
pub open spec fn is_fatal(failures: u32, outcome: Acquired) -> bool {
    failures != 0 && outcome == Acquired::Lost
}

/// The larger of `n` and 1.
pub open spec fn at_least_one(n: u32) -> u32 {
    if n == 0 {
        1
    } else {
        n
    }
}

/// The configuration that a surface is resumed with.
///
/// For an sRGB image the surface keeps its format and gets `suffixed` as one
/// more view format. Otherwise `suffixed` becomes the format, and one more view
/// format too.
pub open spec fn resumed_config(
    config: SurfaceConfig,
    srgb: bool,
    suffixed: wgpu::TextureFormat,
    resumed: SurfaceConfig,
) -> bool {
    &&& resumed.width == config.width
    &&& resumed.height == config.height
    &&& resumed.format == if srgb {
        config.format
    } else {
        suffixed
    }
    &&& resumed.view_formats@ == config.view_formats@.push(suffixed)
}

/// The format that `wgpu::TextureFormat::add_srgb_suffix` gives for `format`:
/// the sRGB variant of the format where it has one, else the format itself.
/// It depends on the format alone.
pub uninterp spec fn srgb_suffix_added(format: wgpu::TextureFormat) -> wgpu::TextureFormat;

/// The format that `wgpu::TextureFormat::remove_srgb_suffix` gives for
/// `format`: the format without the sRGB suffix. It depends on the format
/// alone.
pub uninterp spec fn srgb_suffix_removed(format: wgpu::TextureFormat) -> wgpu::TextureFormat;

/// The view format of a surface of the given format: with the sRGB suffix for
/// an sRGB image, without it otherwise.
pub open spec fn view_format(format: wgpu::TextureFormat, srgb: bool) -> wgpu::TextureFormat {
    if srgb {
        srgb_suffix_added(format)
    } else {
        srgb_suffix_removed(format)
    }
}

/// The format with the sRGB suffix, where the format has such a variant.
///
/// Calls `wgpu::TextureFormat::add_srgb_suffix`, a match on the format that
/// cannot fail. The result is given the name `srgb_suffix_added`; nothing
/// more is stated of it.
#[verifier::external_body]
fn add_srgb_suffix(format: &wgpu::TextureFormat) -> (suffixed: wgpu::TextureFormat)
    ensures
        suffixed == srgb_suffix_added(*format),
{
    format.add_srgb_suffix()
}

/// The format without the sRGB suffix.
///
/// Calls `wgpu::TextureFormat::remove_srgb_suffix`, a match on the format
/// that cannot fail. The result is given the name `srgb_suffix_removed`;
/// nothing more is stated of it.
#[verifier::external_body]
fn remove_srgb_suffix(format: &wgpu::TextureFormat) -> (stripped: wgpu::TextureFormat)
    ensures
        stripped == srgb_suffix_removed(*format),
{
    format.remove_srgb_suffix()
}

/// Keeps track of the surface and of its configuration.
#[derive(Debug)]
pub struct SurfaceWrapper {
    surface: Option<Surface>,
    config: Option<SurfaceConfig>,
}

impl SurfaceWrapper {
    /// Whether a surface exists.
    pub closed spec fn has_surface(&self) -> bool {
        self.surface is Some
    }

    /// The configuration, if the surface has been configured.
    pub closed spec fn spec_config(&self) -> Option<SurfaceConfig> {
        self.config
    }

    /// A wrapper with no surface and no configuration.
    pub fn new() -> (wrapper: SurfaceWrapper)
        ensures
            !wrapper.has_surface(),
            wrapper.spec_config() is None,
    {
        SurfaceWrapper { surface: None, config: None }
    }

    /// Called once the instance exists and before an adapter is asked for. In
    /// a browser the surface is made now, and the result is `true`; elsewhere
    /// nothing changes.
    pub fn pre_adapter(&mut self, platform: Platform) -> (created: bool)
        ensures
            created == (platform == Platform::Web),
            final(self).has_surface() == (old(self).has_surface() || created),
            final(self).spec_config() == old(self).spec_config(),
    {
        if platform == Platform::Web {
            self.surface = Some(Surface);
            true
        } else {
            false
        }
    }

    /// Whether `e` is the event on which the surface is resumed: the start of
    /// the loop, except on Android, where it is the resume event.
    pub fn start_condition(e: &LoopEvent, platform: Platform) -> (start: bool)
        ensures
            start == crate::frame_loop::is_start(*e, platform),
    {
        match e {
            LoopEvent::Init => platform != Platform::Android,
            LoopEvent::Resumed => platform == Platform::Android,
            _ => false,
        }
    }

    /// The size to configure a surface with for a window of the given size:
    /// no side is zero.
    pub fn surface_size(width: u32, height: u32) -> (size: (u32, u32))
        ensures
            size.0 == at_least_one(width),
            size.1 == at_least_one(height),
    {
        (
            if width == 0 {
                1
            } else {
                width
            },
            if height == 0 {
                1
            } else {
                height
            },
        )
    }

    /// The configuration to resume with, given the format that the suffix
    /// change of `config.format` came to.
    pub fn with_view_format(config: SurfaceConfig, srgb: bool, suffixed: wgpu::TextureFormat) -> (resumed:
        SurfaceConfig)
        ensures
            resumed_config(config, srgb, suffixed, resumed),
    {
        let mut resumed = config;
        if !srgb {
            resumed.format = suffixed;
        }
        resumed.view_formats.push(suffixed);
        resumed
    }

    /// Called on the event that `start_condition` accepts. `config` is the
    /// surface's default configuration for the adapter and the window's size.
    ///
    /// Outside a browser the surface is made now. For an sRGB image the view
    /// format is the format with the sRGB suffix; otherwise format and view
    /// format are the format without it.
    pub fn resume(&mut self, platform: Platform, config: SurfaceConfig, srgb: bool)
        requires
            platform == Platform::Web ==> old(self).has_surface(),
        ensures
            final(self).has_surface(),
            final(self).spec_config() matches Some(resumed) && resumed_config(
                config,
                srgb,
                view_format(config.format, srgb),
                resumed,
            ),
    {
        if platform != Platform::Web {
            self.surface = Some(Surface);
        }
        let suffixed = if srgb {
            add_srgb_suffix(&config.format)
        } else {
            remove_srgb_suffix(&config.format)
        };
        let resumed = Self::with_view_format(config, srgb, suffixed);
        self.config = Some(resumed);
    }

    /// Gives the surface the size of the window, with no side zero. Formats
    /// stay as they are.
    pub fn resize(&mut self, width: u32, height: u32)
        requires
            old(self).has_surface(),
            old(self).spec_config() is Some,
        ensures
            final(self).has_surface(),
            final(self).spec_config() matches Some(config) && {
                &&& config.width == at_least_one(width)
                &&& config.height == at_least_one(height)
                &&& config.format == old(self).spec_config()->Some_0.format
                &&& config.view_formats == old(self).spec_config()->Some_0.view_formats
            },
    {
        let size = Self::surface_size(width, height);
        match &mut self.config {
            Some(config) => {
                config.width = size.0;
                config.height = size.1;
            },
            None => {},
        }
    }

    /// Whether an attempt to take the next image ends the program, `failures`
    /// attempts having failed before it in this frame.
    pub fn gives_up(failures: u32, outcome: Acquired) -> (fatal: bool)
        ensures
            fatal == is_fatal(failures, outcome),
    {
        failures != 0 && outcome == Acquired::Lost
    }

    /// What to do after an attempt to take the next image, `failures` attempts
    /// having failed before it in this frame: with an image, draw; after a
    /// first loss, configure the surface again and try once more. A second
    /// loss is final and has no answer here.
    pub fn acquire(&self, failures: u32, outcome: Acquired) -> (step: AcquireStep)
        requires
            self.has_surface(),
            self.spec_config() is Some,
            !is_fatal(failures, outcome),
        ensures
            step == match outcome {
                Acquired::Frame => AcquireStep::Draw,
                Acquired::Lost => AcquireStep::Reconfigure,
            },
    {
        match outcome {
            Acquired::Frame => AcquireStep::Draw,
            Acquired::Lost => AcquireStep::Reconfigure,
        }
    }

    /// On Android the surface is dropped; elsewhere nothing changes.
    pub fn suspend(&mut self, platform: Platform)
        ensures
            final(self).has_surface() == (old(self).has_surface() && platform
                != Platform::Android),
            final(self).spec_config() == old(self).spec_config(),
    {
        if platform == Platform::Android {
            self.surface = None;
        }
    }

    /// The surface, if there is one.
    pub fn get(&self) -> (surface: Option<&Surface>)
        ensures
            surface is Some == self.has_surface(),
    {
        self.surface.as_ref()
    }

    /// Whether the surface has been configured.
    pub fn is_configured(&self) -> (configured: bool)
        ensures
            configured == self.spec_config() is Some,
    {
        self.config.is_some()
    }

    /// The configuration of a configured surface.
    pub fn config(&self) -> (config: &SurfaceConfig)
        requires
            self.spec_config() is Some,
        ensures
            Some(*config) == self.spec_config(),
    {
        self.config.as_ref().unwrap()
    }
}

} // verus!
