//! The Standard MIDI File container: one header chunk followed by the
//! track chunks, emitted in insertion order.

use vstd::prelude::*;

use crate::header::spec_header_bytes;
use crate::header::Header;
use crate::track::spec_track_bytes;
use crate::track::spec_track_wf;
use crate::track::Track;
use crate::track::TrackView;
use vstd::slice::slice_index_get;

verus! {

/// A Standard MIDI File: a header and its tracks. No cross-track validation
/// is performed; keeping `track_count` consistent with the number of tracks
/// is the caller's responsibility.
#[derive(Debug)]
pub struct Smf {
    pub header: Header,
    pub tracks: Vec<Track>,
}

/// The mathematical shape of a file: the header and the tracks' views.
pub struct SmfView {
    pub header: Header,
    pub tracks: Seq<TrackView>,
}

impl View for Smf {
    type V = SmfView;

    open spec fn view(&self) -> SmfView {
        SmfView { header: self.header, tracks: self.tracks@.map_values(|t: Track| t@) }
    }
}

/// The concatenated `MTrk` chunks of a sequence of tracks, in order.
pub open spec fn spec_tracks_bytes(tracks: Seq<TrackView>) -> Seq<u8>
    decreases tracks.len(),
{
    if tracks.len() == 0 {
        Seq::<u8>::empty()
    } else {
        spec_tracks_bytes(tracks.drop_last()) + spec_track_bytes(tracks.last())
    }
}

/// Whether every track of a file can be encoded.
pub open spec fn spec_smf_wf(s: SmfView) -> bool {
    forall|i: int| 0 <= i < s.tracks.len() ==> spec_track_wf(#[trigger] s.tracks[i])
}

/// The whole file: the header bytes, then each track's chunk in order.
pub open spec fn spec_smf_bytes(s: SmfView) -> Seq<u8>
    recommends
        spec_smf_wf(s),
{
    spec_header_bytes(s.header) + spec_tracks_bytes(s.tracks)
}

impl Smf {
    /// Whether every track of this file can be encoded.
    pub open spec fn wf(self) -> bool {
        spec_smf_wf(self@)
    }

    /// Builds a file from a header and its tracks.
    pub fn new(header: Header, tracks: Vec<Track>) -> (r: Self)
        ensures
            r.header == header,
            r.tracks == tracks,
    {
        Self { header, tracks }
    }

    /// Builds a file from a header and a borrowed slice of tracks, cloning
    /// each track.
    pub fn from_slice(header: Header, tracks: &[Track]) -> (r: Self)
        ensures
            r.header == header,
            r@.tracks.len() == tracks@.len(),
            forall|i: int| 0 <= i < tracks@.len() ==> r@.tracks[i] == #[trigger] tracks@[i]@,
    {
        let mut cloned_tracks: Vec<Track> = Vec::new();
        let mut i: usize = 0;
        while i < tracks.len()
            invariant
                0 <= i <= tracks@.len(),
                cloned_tracks@.len() == i,
                forall|j: int|
                    0 <= j < i ==> cloned_tracks@[j]@ == #[trigger] tracks@[j]@,
            decreases tracks@.len() - i,
        {
            cloned_tracks.push(slice_index_get(tracks, i).clone());
            i = i + 1;
        }
        Self { header, tracks: cloned_tracks }
    }

    /// Emits the file: the 14 header bytes, then each track's `MTrk` chunk
    /// in insertion order.
    pub fn to_bytes(&self) -> (r: Vec<u8>)
        requires
            self.wf(),
        ensures
            r@ == spec_smf_bytes(self@),
    {
        let ghost tvs = self@.tracks;
        let mut bytes: Vec<u8> = self.header.to_bytes();
        let mut i: usize = 0;
        while i < self.tracks.len()
            invariant
                0 <= i <= self.tracks.len(),
                tvs == self@.tracks,
                spec_smf_wf(self@),
                bytes@ == spec_header_bytes(self.header) + spec_tracks_bytes(
                    tvs.take(i as int),
                ),
            decreases self.tracks.len() - i,
        {
            proof {
                assert(self.tracks@[i as int]@ == tvs[i as int]);
                assert(spec_track_wf(tvs[i as int]));
            }
            let mut track_bytes = self.tracks[i].to_bytes();
            bytes.append(&mut track_bytes);
            proof {
                assert(tvs.take(i + 1).drop_last() =~= tvs.take(i as int));
                assert(tvs.take(i + 1).last() == self.tracks@[i as int]@);
            }
            i = i + 1;
        }
        proof {
            assert(tvs.take(self.tracks@.len() as int) =~= tvs);
        }
        bytes
    }
}

impl Clone for Smf {
    /// A clone denotes the same file: the views are equal.
    fn clone(&self) -> (r: Self)
        ensures
            r@ == self@,
    {
        let r = Smf { header: self.header, tracks: self.tracks.clone() };
        proof {
            assert forall|i: int| 0 <= i < r.tracks@.len() implies r.tracks@[i]@
                == self.tracks@[i]@ by {
                assert(cloned::<Track>(self.tracks@[i], r.tracks@[i]));
            }
            assert(r@.tracks =~= self@.tracks);
        }
        r
    }
}

} // verus!
