use vstd::prelude::*;
use vstd::string::*;

verus! {

/// Frame held by the one-slot snapshot after `stores`, in order: the last
/// one, or none before the first.
pub open spec fn snapshot_after(stores: Seq<Seq<u8>>) -> Option<Seq<u8>> {
    if stores.len() == 0 {
        None
    } else {
        Some(stores.last())
    }
}

/// One-slot holder of the most recent frame; a store replaces what it held.
#[derive(Clone, Debug)]
pub struct LatestFrame {
    frame: Option<Vec<u8>>,
}

impl View for LatestFrame {
    type V = Option<Seq<u8>>;

    closed spec fn view(&self) -> Option<Seq<u8>> {
        match self.frame {
            Some(f) => Some(f@),
            None => None,
        }
    }
}

impl LatestFrame {
    /// An empty slot.
    pub fn new() -> (r: Self)
        ensures
            r@ == snapshot_after(Seq::empty()),
    {
        LatestFrame { frame: None }
    }

    /// Replaces the held frame with `frame`.
    pub fn store(&mut self, frame: Vec<u8>)
        ensures
            final(self)@ == Some(frame@),
    {
        self.frame = Some(frame);
    }

    /// The held frame.
    pub fn get(&self) -> (r: Option<&Vec<u8>>)
        ensures
            match r {
                Some(f) => self@ == Some(f@),
                None => self@ is None,
            },
    {
        match &self.frame {
            Some(f) => Some(f),
            None => None,
        }
    }
}

/// Status and headers of a reply to a request for the latest frame.
#[derive(Debug)]
pub struct FrameReply {
    pub status: u16,
    pub content_type: Option<String>,
    pub no_store: bool,
}

/// Reply status for a snapshot holding `frame`.
pub open spec fn frame_reply_status(frame: Option<Seq<u8>>) -> u16 {
    if frame is Some { 200 } else { 404 }
}

/// The reply for a snapshot holding `frame`: the PNG image, never cached,
/// or "not found" before any frame.
pub fn latest_frame_reply(frame: Option<&Vec<u8>>) -> (r: FrameReply)
    ensures
        r.status == frame_reply_status(
            match frame {
                Some(f) => Some(f@),
                None => None,
            },
        ),
        frame is Some ==> r.content_type is Some && r.content_type.unwrap()@ == "image/png"@ && r.no_store,
        frame is None ==> r.content_type is None,
{
    match frame {
        Some(_) => FrameReply {
            status: 200,
            content_type: Some(String::from_str("image/png")),
            no_store: true,
        },
        None => FrameReply { status: 404, content_type: None, no_store: false },
    }
}

/// Once at least one frame was stored the latest frame is served with
/// success, and the frame served is the last one stored; before any store
/// the request is answered "not found".
/// A store of `frame` after `stores` leaves the slot holding `frame`, as
/// [`LatestFrame::store`] does.
pub proof fn lemma_latest_frame_served(stores: Seq<Seq<u8>>, frame: Seq<u8>)
    ensures
        frame_reply_status(snapshot_after(stores)) == if stores.len() > 0 { 200u16 } else { 404u16 },
        stores.len() > 0 ==> snapshot_after(stores) == Some(stores.last()),
        snapshot_after(stores.push(frame)) == Some(frame),
{
}

} // verus!
