//! Configuration data for one pipeline run: codec and quality enumerations,
//! the output container, and the `Operation` record that drives everything.

use vstd::prelude::*;

verus! {

/// Semantic video/audio quality tier, ordered from `VeryLow` to `VeryHigh`.
#[derive(Debug, Clone, Copy, PartialEq, Eq, Hash, Structural)]
pub enum Quality {
    VeryLow,
    Low,
    Medium,
    High,
    VeryHigh,
}

/// The position of a tier in the quality order (`VeryLow` lowest).
pub open spec fn tier_rank(q: Quality) -> int {
    match q {
        Quality::VeryLow => 0,
        Quality::Low => 1,
        Quality::Medium => 2,
        Quality::High => 3,
        Quality::VeryHigh => 4,
    }
}

/// Video codec choice; `Copy` passes the stream through and bypasses the
/// parameter model entirely.
#[derive(Debug, Clone, Copy, PartialEq, Eq, Hash, Structural)]
pub enum VCodec {
    Copy,
    Vp9,
    Av1,
}

/// Audio codec choice; `Copy` passes the stream through.
#[derive(Debug, Clone, Copy, PartialEq, Eq, Hash, Structural)]
pub enum ACodec {
    Copy,
    Opus,
}

/// Output container kind.
#[derive(Debug, Clone, Copy, PartialEq, Eq, Hash, Structural)]
pub enum Container {
    Mp4,
    Mkv,
    Webm,
}

/// The canonical file extension of each container.
pub open spec fn spec_extension(c: Container) -> Seq<char> {
    match c {
        Container::Mp4 => "mp4"@,
        Container::Mkv => "mkv"@,
        Container::Webm => "webm"@,
    }
}

impl Container {
    /// The canonical file extension, without the dot.
    pub fn extension(&self) -> (r: &'static str)
        ensures
            r@ == spec_extension(*self),
    {
        match *self {
            Container::Mp4 => "mp4",
            Container::Mkv => "mkv",
            Container::Webm => "webm",
        }
    }
}

/// Immutable configuration of one pipeline run.
#[derive(Debug, PartialEq)]
pub struct Operation {
    /// CPU throttle percentage-equivalent applied to each invocation.
    pub cpulimit: u32,
    /// Ordered input paths; more than one forces a concatenation stage.
    pub inputs: Vec<String>,
    /// Optional rotation code for a transpose filter.
    pub transpose: Option<u8>,
    /// Target resolution, width by height.
    pub scale: (u16, u16),
    /// Whether loudness is measured and normalization applied.
    pub loudnorm: bool,
    /// Video quality tier.
    pub video_quality: Quality,
    /// Target frame rate as numerator/denominator.
    pub video_fps: (u32, u32),
    /// Video codec choice.
    pub video_codec: VCodec,
    /// Audio quality tier.
    pub audio_quality: Quality,
    /// Audio codec choice.
    pub audio_codec: ACodec,
    /// Whether a metadata-stripping stage produces the final output.
    pub strip_metadata: bool,
    /// Output title; sanitized for the file name, verbatim in metadata.
    pub title: String,
    /// Output container kind.
    pub container: Container,
}

/// The mathematical content of an [`Operation`].
pub struct OperationV {
    pub cpulimit: u32,
    pub inputs: Seq<Seq<char>>,
    pub transpose: Option<u8>,
    pub scale: (u16, u16),
    pub loudnorm: bool,
    pub video_quality: Quality,
    pub video_fps: (u32, u32),
    pub video_codec: VCodec,
    pub audio_quality: Quality,
    pub audio_codec: ACodec,
    pub strip_metadata: bool,
    pub title: Seq<char>,
    pub container: Container,
}

impl View for Operation {
    type V = OperationV;

    open spec fn view(&self) -> OperationV {
        OperationV {
            cpulimit: self.cpulimit,
            inputs: self.inputs.deep_view(),
            transpose: self.transpose,
            scale: self.scale,
            loudnorm: self.loudnorm,
            video_quality: self.video_quality,
            video_fps: self.video_fps,
            video_codec: self.video_codec,
            audio_quality: self.audio_quality,
            audio_codec: self.audio_codec,
            strip_metadata: self.strip_metadata,
            title: self.title@,
            container: self.container,
        }
    }
}

/// An invalid operation field, found before the pipeline starts.
#[derive(Debug, Clone, Copy, PartialEq, Eq, Structural)]
pub enum ConfigError {
    /// No input path was given.
    NoInputs,
    /// The target width is zero.
    ZeroWidth,
    /// The target height is zero.
    ZeroHeight,
    /// The frame-rate denominator is zero.
    ZeroFpsDenominator,
    /// The uncompressed bitrate overflows the 64-bit parameter model.
    FrameRateOverflow,
}

/// Which configuration check, in a fixed order, is the first to fail.
pub open spec fn spec_config_error(op: OperationV) -> Option<ConfigError> {
    if op.inputs.len() == 0 {
        Some(ConfigError::NoInputs)
    } else if op.scale.0 == 0 {
        Some(ConfigError::ZeroWidth)
    } else if op.scale.1 == 0 {
        Some(ConfigError::ZeroHeight)
    } else if op.video_fps.1 == 0 {
        Some(ConfigError::ZeroFpsDenominator)
    } else if crate::params::spec_uncompressed_bitrate(
        op.video_fps,
        op.scale.0 as u32,
        op.scale.1 as u32,
    ) > u64::MAX {
        Some(ConfigError::FrameRateOverflow)
    } else {
        None
    }
}

/// A well-formed operation: at least one input, positive resolution, a
/// nonzero frame-rate denominator, and an uncompressed bitrate within the
/// parameter model's range.
pub open spec fn spec_valid_operation(op: OperationV) -> bool {
    spec_config_error(op) is None
}

impl Operation {
    /// Check the operation before the pipeline starts; every later stage
    /// relies on a valid operation.
    pub fn validate(&self) -> (r: Result<(), ConfigError>)
        ensures
            r is Ok <==> spec_valid_operation(self@),
            r matches Err(e) ==> Some(e) == spec_config_error(self@),
    {
        if self.inputs.len() == 0 {
            return Err(ConfigError::NoInputs);
        }
        if self.scale.0 == 0 {
            return Err(ConfigError::ZeroWidth);
        }
        if self.scale.1 == 0 {
            return Err(ConfigError::ZeroHeight);
        }
        if self.video_fps.1 == 0 {
            return Err(ConfigError::ZeroFpsDenominator);
        }
        proof {
            let b32: int = 0x1_0000_0000;
            assert(24 * (self.scale.0 as int) <= u128::MAX && 24 * (self.scale.0 as int) * (
            self.scale.1 as int) <= u128::MAX && 24 * (self.scale.0 as int) * (self.scale.1 as int)
                * (self.video_fps.0 as int) <= u128::MAX) by (nonlinear_arith)
                requires
                    0 <= (self.scale.0 as int) && (self.scale.0 as int) < b32,
                    0 <= (self.scale.1 as int) && (self.scale.1 as int) < b32,
                    0 <= (self.video_fps.0 as int) && (self.video_fps.0 as int) < b32,
                    b32 == 0x1_0000_0000,
            ;
        }
        let wide: u128 = 24u128 * (self.scale.0 as u128) * (self.scale.1 as u128) * (
        self.video_fps.0 as u128) / (self.video_fps.1 as u128);
        if wide > u64::MAX as u128 {
            return Err(ConfigError::FrameRateOverflow);
        }
        Ok(())
    }
}

} // verus!
