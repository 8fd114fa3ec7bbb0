use crate::types::text_view;
use vstd::prelude::*;

verus! {

/// A capture configuration as a caller writes it. Every field may be left
/// out. The sampling rate is in frames per thousand seconds, the two
/// durations are in seconds, and the quality is meant to lie between 0 and
/// 100; none of them is interpreted here, so whatever number is written is
/// the number the engine gets.
#[derive(Clone, Debug)]
pub struct JsScreenCaptureConfig {
    pub fps_millihertz: Option<u32>,
    pub duration: Option<u32>,
    pub save_screenshot_to: Option<String>,
    pub save_video_to: Option<String>,
    pub video_chunk_duration: Option<u32>,
    pub quality: Option<u32>,
}

/// The view of [`JsScreenCaptureConfig`]: the same contents, with each text as its sequence of
/// characters.
pub struct JsScreenCaptureConfigView {
    pub fps_millihertz: Option<u32>,
    pub duration: Option<u32>,
    pub save_screenshot_to: Option<Seq<char>>,
    pub save_video_to: Option<Seq<char>>,
    pub video_chunk_duration: Option<u32>,
    pub quality: Option<u32>,
}

impl View for JsScreenCaptureConfig {
    type V = JsScreenCaptureConfigView;

    open spec fn view(&self) -> JsScreenCaptureConfigView {
        JsScreenCaptureConfigView {
            fps_millihertz: self.fps_millihertz,
            duration: self.duration,
            save_screenshot_to: text_view(self.save_screenshot_to),
            save_video_to: text_view(self.save_video_to),
            video_chunk_duration: self.video_chunk_duration,
            quality: self.quality,
        }
    }
}

/// The values the capture engine uses for the fields a caller leaves out.
#[derive(Clone, Copy, Debug)]
pub struct CaptureDefaults {
    pub fps_millihertz: u32,
    pub video_chunk_duration: u64,
    pub quality: u32,
}

/// The capture configuration the engine is started with. A duration left
/// out stays left out: such a run goes on until it is cancelled. So do the
/// two destinations, which are handed through as written.
#[derive(Clone, Debug)]
pub struct ScreenCaptureConfig {
    pub fps_millihertz: u32,
    pub duration: Option<u64>,
    pub save_screenshot_to: Option<String>,
    pub save_video_to: Option<String>,
    pub video_chunk_duration: u64,
    pub quality: u32,
}

/// The view of [`ScreenCaptureConfig`]: the same contents, with each text as its sequence of
/// characters.
pub struct ScreenCaptureConfigView {
    pub fps_millihertz: u32,
    pub duration: Option<u64>,
    pub save_screenshot_to: Option<Seq<char>>,
    pub save_video_to: Option<Seq<char>>,
    pub video_chunk_duration: u64,
    pub quality: u32,
}

impl View for ScreenCaptureConfig {
    type V = ScreenCaptureConfigView;

    open spec fn view(&self) -> ScreenCaptureConfigView {
        ScreenCaptureConfigView {
            fps_millihertz: self.fps_millihertz,
            duration: self.duration,
            save_screenshot_to: text_view(self.save_screenshot_to),
            save_video_to: text_view(self.save_video_to),
            video_chunk_duration: self.video_chunk_duration,
            quality: self.quality,
        }
    }
}

impl JsScreenCaptureConfigView {
    /// The configuration with every field that was left out, and that has a
    /// default, filled in.
    pub open spec fn normalized(self, defaults: CaptureDefaults) -> ScreenCaptureConfigView {
        ScreenCaptureConfigView {
            fps_millihertz: match self.fps_millihertz {
                Some(v) => v,
                None => defaults.fps_millihertz,
            },
            duration: match self.duration {
                Some(v) => Some(v as u64),
                None => None,
            },
            save_screenshot_to: self.save_screenshot_to,
            save_video_to: self.save_video_to,
            video_chunk_duration: match self.video_chunk_duration {
                Some(v) => v as u64,
                None => defaults.video_chunk_duration,
            },
            quality: match self.quality {
                Some(v) => v,
                None => defaults.quality,
            },
        }
    }
}

impl ScreenCaptureConfigView {
    /// Whether a run that has lasted `elapsed_seconds` may still ask the
    /// source for a frame.
    pub open spec fn within_duration(self, elapsed_seconds: u64) -> bool {
        match self.duration {
            Some(bound) => elapsed_seconds < bound,
            None => true,
        }
    }
}

impl ScreenCaptureConfig {
    /// Fills in the defaults. Nothing a caller wrote is changed.
    pub fn from_js(config: JsScreenCaptureConfig, defaults: &CaptureDefaults) -> (r:
        ScreenCaptureConfig)
        ensures
            r@ == config@.normalized(*defaults),
    {
        ScreenCaptureConfig {
            fps_millihertz: match config.fps_millihertz {
                Some(v) => v,
                None => defaults.fps_millihertz,
            },
            duration: match config.duration {
                Some(v) => Some(v as u64),
                None => None,
            },
            save_screenshot_to: config.save_screenshot_to,
            save_video_to: config.save_video_to,
            video_chunk_duration: match config.video_chunk_duration {
                Some(v) => v as u64,
                None => defaults.video_chunk_duration,
            },
            quality: match config.quality {
                Some(v) => v,
                None => defaults.quality,
            },
        }
    }

    /// Whether the source may be asked for another frame after
    /// `elapsed_seconds`: always for an unbounded run, and for a bounded one
    /// only before the bound has elapsed.
    pub fn within_duration(&self, elapsed_seconds: u64) -> (r: bool)
        ensures
            r == self@.within_duration(elapsed_seconds),
    {
        match self.duration {
            Some(bound) => elapsed_seconds < bound,
            None => true,
        }
    }
}

} // verus!
