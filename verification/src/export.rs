//! Export sessions: the capture/export driver asks for (frame, timestamp)
//! pairs sequentially; each capture request is produced exactly once, and
//! the session signals completion when no further frames remain.

use vstd::prelude::*;

verus! {

/// Fixed settings of one export: the off-screen resolution, the frame rate,
/// and how many frames the export spans.
#[derive(Clone, Copy, Debug, PartialEq, Eq, Structural)]
pub struct ExportSettings {
    pub width: u32,
    pub height: u32,
    pub fps: u32,
    pub total_frames: u32,
}

impl ExportSettings {
    /// Settings a capture can actually be rendered and stripped with.
    pub open spec fn wf(self) -> bool {
        &&& self.width > 0
        &&& self.height > 0
        &&& self.fps > 0
        &&& 4 * self.width + 256 <= u32::MAX + 1
        &&& 4 * self.width * self.height <= usize::MAX
    }
}

/// One frame to capture: consumed exactly once, produces pixel bytes or a
/// capture error.
#[derive(Clone, Copy, Debug, PartialEq, Eq, Structural)]
pub struct CaptureRequest {
    pub frame_index: u32,
    pub timestamp_ms: u64,
}

/// Timestamp, in milliseconds on the export clock, at which a frame sits.
pub open spec fn frame_timestamp_spec(frame: u32, fps: u32) -> int
    recommends
        fps > 0,
{
    (frame * 1000) / (fps as int)
}

/// Hands out capture requests in frame order until the export is done.
pub struct ExportSession {
    pub settings: ExportSettings,
    pub next_frame: u32,
    pub exporting: bool,
}

impl ExportSession {
    /// Starts an export at frame 0.
    pub fn begin(settings: ExportSettings) -> (s: Self)
        requires
            settings.wf(),
        ensures
            s.settings == settings,
            s.next_frame == 0,
            s.exporting,
    {
        ExportSession { settings, next_frame: 0, exporting: true }
    }

    /// Whether an export is running.
    pub fn is_exporting(&self) -> (r: bool)
        ensures
            r == self.exporting,
    {
        self.exporting
    }

    /// The next capture request, in strict frame order: each request is
    /// produced exactly once, and `None` exactly when every frame of the
    /// export has already been handed out.
    pub fn try_get_next_frame(&mut self) -> (r: Option<CaptureRequest>)
        requires
            old(self).settings.fps > 0,
        ensures
            final (self).settings == old(self).settings,
            final (self).exporting == old(self).exporting,
            match r {
                Some(req) => {
                    &&& old(self).next_frame < old(self).settings.total_frames
                    &&& req.frame_index == old(self).next_frame
                    &&& req.timestamp_ms == frame_timestamp_spec(
                        old(self).next_frame,
                        old(self).settings.fps,
                    )
                    &&& final (self).next_frame == old(self).next_frame + 1
                },
                None => {
                    &&& old(self).next_frame >= old(self).settings.total_frames
                    &&& final (self).next_frame == old(self).next_frame
                },
            },
    {
        if self.next_frame < self.settings.total_frames {
            let frame = self.next_frame;
            let ts: u64 = (frame as u64) * 1000 / (self.settings.fps as u64);
            self.next_frame = frame + 1;
            Some(CaptureRequest { frame_index: frame, timestamp_ms: ts })
        } else {
            None
        }
    }

    /// Ends the export once no further frames are requested.
    pub fn complete_export(&mut self)
        ensures
            final (self).settings == old(self).settings,
            final (self).next_frame == old(self).next_frame,
            !final (self).exporting,
    {
        self.exporting = false;
    }
}

} // verus!
