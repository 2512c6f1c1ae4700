use vstd::prelude::*;

verus! {

/// Where the detector reads its frames from.
#[derive(Clone, Debug, PartialEq, Eq)]
pub enum InputSource {
    /// A recorded video file at this path.
    VideoFile(String),
    /// The webcam with this device index.
    Camera(i32),
    /// The Raspberry Pi camera through GStreamer.
    PiCamera,
}

impl InputSource {
    /// The source chosen on the command line: a given video file wins, then
    /// the Pi camera when asked for, else the default webcam (index 0).
    pub fn from_options(video: Option<String>, pi_camera: bool) -> (r: InputSource)
        ensures
            match video {
                Some(path) => r matches InputSource::VideoFile(p) && p@ == path@,
                None => if pi_camera {
                    r matches InputSource::PiCamera
                } else {
                    r matches InputSource::Camera(0)
                },
            },
    {
        match video {
            Some(path) => InputSource::VideoFile(path),
            None => {
                if pi_camera {
                    InputSource::PiCamera
                } else {
                    InputSource::Camera(0)
                }
            },
        }
    }
}

} // verus!
