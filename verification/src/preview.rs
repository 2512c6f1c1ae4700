use vstd::prelude::*;

verus! {

/// The preview streams that the web UI offers.
#[derive(Clone, Copy, Debug, PartialEq, Eq, Structural)]
pub enum PreviewStreamKind {
    Detection,
    Mask,
    HMask,
    SMask,
    VMask,
}

/// The latest encoded preview of every stream, and how many frames have been
/// published so far.
pub struct PreviewFrames {
    frame_count: u64,
    detection_jpeg: Option<Vec<u8>>,
    mask_jpeg: Option<Vec<u8>>,
    h_mask_jpeg: Option<Vec<u8>>,
    s_mask_jpeg: Option<Vec<u8>>,
    v_mask_jpeg: Option<Vec<u8>>,
}

/// The contents of [`PreviewFrames`]: the frame counter and the bytes held
/// for each stream.
pub struct PreviewFramesView {
    pub frame_count: u64,
    pub detection: Option<Seq<u8>>,
    pub mask: Option<Seq<u8>>,
    pub h_mask: Option<Seq<u8>>,
    pub s_mask: Option<Seq<u8>>,
    pub v_mask: Option<Seq<u8>>,
}

pub open spec fn bytes_of(o: Option<Vec<u8>>) -> Option<Seq<u8>> {
    match o {
        Some(v) => Some(v@),
        None => None,
    }
}

impl View for PreviewFrames {
    type V = PreviewFramesView;

    closed spec fn view(&self) -> PreviewFramesView {
        PreviewFramesView {
            frame_count: self.frame_count,
            detection: bytes_of(self.detection_jpeg),
            mask: bytes_of(self.mask_jpeg),
            h_mask: bytes_of(self.h_mask_jpeg),
            s_mask: bytes_of(self.s_mask_jpeg),
            v_mask: bytes_of(self.v_mask_jpeg),
        }
    }
}

impl PreviewFramesView {
    /// The bytes held for one stream.
    pub open spec fn preview(self, kind: PreviewStreamKind) -> Option<Seq<u8>> {
        match kind {
            PreviewStreamKind::Detection => self.detection,
            PreviewStreamKind::Mask => self.mask,
            PreviewStreamKind::HMask => self.h_mask,
            PreviewStreamKind::SMask => self.s_mask,
            PreviewStreamKind::VMask => self.v_mask,
        }
    }

    /// After one more processed frame: the counter moves on, the detection
    /// overlay is always replaced and each mask holds what came with the frame.
    pub open spec fn published(
        self,
        detection: Seq<u8>,
        mask: Option<Seq<u8>>,
        h_mask: Option<Seq<u8>>,
        s_mask: Option<Seq<u8>>,
        v_mask: Option<Seq<u8>>,
    ) -> PreviewFramesView {
        PreviewFramesView {
            frame_count: (self.frame_count + 1) as u64,
            detection: Some(detection),
            mask,
            h_mask,
            s_mask,
            v_mask,
        }
    }

    /// A reader that has seen frame `last_seen` has something new to fetch
    /// from this stream.
    pub open spec fn has_fresh(self, kind: PreviewStreamKind, last_seen: u64) -> bool {
        self.frame_count > last_seen && self.preview(kind) is Some
    }

    /// What such a reader receives: the current frame number and the stream's
    /// bytes, or nothing.
    pub open spec fn fresh(self, kind: PreviewStreamKind, last_seen: u64) -> Option<(u64, Seq<u8>)> {
        if self.has_fresh(kind, last_seen) {
            Some((self.frame_count, self.preview(kind)->0))
        } else {
            None
        }
    }
}

fn copy_bytes(bytes: &Vec<u8>) -> (r: Vec<u8>)
    ensures
        r@ == bytes@,
{
    let r = bytes.clone();
    assert(r@ =~= bytes@);
    r
}

impl PreviewFrames {
    /// No frame published yet, no stream holds anything.
    pub fn new() -> (r: Self)
        ensures
            r@.frame_count == 0,
            forall|kind: PreviewStreamKind| r@.preview(kind) is None,
    {
        PreviewFrames {
            frame_count: 0,
            detection_jpeg: None,
            mask_jpeg: None,
            h_mask_jpeg: None,
            s_mask_jpeg: None,
            v_mask_jpeg: None,
        }
    }

    /// How many frames have been published.
    pub fn frame_count(&self) -> (r: u64)
        ensures
            r == self@.frame_count,
    {
        self.frame_count
    }

    /// Store the previews of one more processed frame.
    pub fn publish(
        &mut self,
        detection: Vec<u8>,
        mask: Option<Vec<u8>>,
        h_mask: Option<Vec<u8>>,
        s_mask: Option<Vec<u8>>,
        v_mask: Option<Vec<u8>>,
    )
        requires
            old(self)@.frame_count < u64::MAX,
        ensures
            final(self)@ == old(self)@.published(
                detection@,
                bytes_of(mask),
                bytes_of(h_mask),
                bytes_of(s_mask),
                bytes_of(v_mask),
            ),
    {
        self.frame_count = self.frame_count + 1;
        self.detection_jpeg = Some(detection);
        self.mask_jpeg = mask;
        self.h_mask_jpeg = h_mask;
        self.s_mask_jpeg = s_mask;
        self.v_mask_jpeg = v_mask;
    }

    /// The bytes held for one stream.
    pub fn preview(&self, kind: PreviewStreamKind) -> (r: Option<&Vec<u8>>)
        ensures
            match r {
                Some(v) => self@.preview(kind) == Some(v@),
                None => self@.preview(kind) is None,
            },
    {
        match kind {
            PreviewStreamKind::Detection => self.detection_jpeg.as_ref(),
            PreviewStreamKind::Mask => self.mask_jpeg.as_ref(),
            PreviewStreamKind::HMask => self.h_mask_jpeg.as_ref(),
            PreviewStreamKind::SMask => self.s_mask_jpeg.as_ref(),
            PreviewStreamKind::VMask => self.v_mask_jpeg.as_ref(),
        }
    }

    /// Whether a reader that has seen frame `last_seen` can be served now;
    /// a waiting reader sleeps until this holds.
    pub fn has_fresh(&self, kind: PreviewStreamKind, last_seen: u64) -> (r: bool)
        ensures
            r == self@.has_fresh(kind, last_seen),
    {
        self.frame_count > last_seen && self.preview(kind).is_some()
    }

    /// What a reader that has seen frame `last_seen` receives from one stream.
    pub fn fresh_preview(&self, kind: PreviewStreamKind, last_seen: u64) -> (r: Option<(u64, Vec<u8>)>)
        ensures
            match r {
                Some((n, bytes)) => self@.fresh(kind, last_seen) == Some((n, bytes@)),
                None => self@.fresh(kind, last_seen) is None,
            },
    {
        if self.frame_count <= last_seen {
            return None;
        }
        match self.preview(kind) {
            Some(bytes) => Some((self.frame_count, copy_bytes(bytes))),
            None => None,
        }
    }
}

/// A reader that has seen the frame before a publish receives the new frame
/// from every stream that was published with it, the detection overlay
/// always; a reader that has seen the new frame receives nothing more until
/// the next publish.
pub proof fn lemma_publish_then_read(
    frames: PreviewFramesView,
    detection: Seq<u8>,
    mask: Option<Seq<u8>>,
    h_mask: Option<Seq<u8>>,
    s_mask: Option<Seq<u8>>,
    v_mask: Option<Seq<u8>>,
    kind: PreviewStreamKind,
)
    requires
        frames.frame_count < u64::MAX,
    ensures
        ({
            let after = frames.published(detection, mask, h_mask, s_mask, v_mask);
            &&& after.fresh(PreviewStreamKind::Detection, frames.frame_count) == Some(
                ((frames.frame_count + 1) as u64, detection),
            )
            &&& after.preview(kind) matches Some(bytes) ==> after.fresh(kind, frames.frame_count)
                == Some(((frames.frame_count + 1) as u64, bytes))
            &&& after.fresh(kind, after.frame_count) is None
        }),
{
}

/// Any frame newer than the one a reader saw is served to it, not only the
/// next one: the reader gets the current frame number and that stream's
/// bytes. Nothing is served to a reader that has seen the current frame, and a
/// reader further behind is served whenever one closer to the present is.
pub proof fn lemma_any_newer_frame_is_fresh(
    frames: PreviewFramesView,
    kind: PreviewStreamKind,
    last_seen: u64,
    earlier: u64,
)
    ensures
        frames.frame_count > last_seen && frames.preview(kind) is Some ==> frames.has_fresh(
            kind,
            last_seen,
        ) && frames.fresh(kind, last_seen) == Some(
            (frames.frame_count, frames.preview(kind)->0),
        ),
        frames.frame_count <= last_seen ==> !frames.has_fresh(kind, last_seen) && frames.fresh(
            kind,
            last_seen,
        ) is None,
        frames.preview(kind) is None ==> frames.fresh(kind, last_seen) is None,
        earlier <= last_seen && frames.has_fresh(kind, last_seen) ==> frames.has_fresh(
            kind,
            earlier,
        ) && frames.fresh(kind, earlier) == frames.fresh(kind, last_seen),
{
}

} // verus!
