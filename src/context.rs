use vstd::prelude::*;
use crate::dictionary::Dictionary;
use crate::parameters::{Parameters, ParametersView};
use crate::rational::Rational;
use crate::stream::Stream;
use crate::stream_mut::StreamMut;

verus! {

/// Status that the seek primitive answers with when its arguments are invalid.
pub const EINVAL: i32 = -22;

/// One stream's descriptor, as the container keeps it.
pub struct StreamRecord {
    pub(crate) time_base: Rational,
    pub(crate) r_frame_rate: Rational,
    pub(crate) avg_frame_rate: Rational,
    pub(crate) codecpar: Parameters,
    pub(crate) metadata: Dictionary,
}

pub struct StreamRecordView {
    pub time_base: Rational,
    pub rate: Rational,
    pub avg_frame_rate: Rational,
    pub parameters: ParametersView,
    pub metadata: Seq<(Seq<char>, Seq<char>)>,
}

impl View for StreamRecord {
    type V = StreamRecordView;

    closed spec fn view(&self) -> StreamRecordView {
        StreamRecordView {
            time_base: self.time_base,
            rate: self.r_frame_rate,
            avg_frame_rate: self.avg_frame_rate,
            parameters: self.codecpar@,
            metadata: self.metadata@,
        }
    }
}

/// A seek that the container accepted: the stream, and the lower bound,
/// target and upper bound of the timestamps.
#[derive(Clone, Copy, Debug, PartialEq, Eq, Structural)]
pub struct SeekRequest {
    pub stream_index: usize,
    pub min_ts: i64,
    pub ts: i64,
    pub max_ts: i64,
}

/// A container: an ordered table of stream records and a read cursor, which the
/// last accepted seek placed.
pub struct Context {
    pub(crate) streams: Vec<StreamRecord>,
    pub(crate) last_seek: Option<SeekRequest>,
}

pub struct ContextView {
    pub streams: Seq<StreamRecordView>,
    pub last_seek: Option<SeekRequest>,
}

impl View for Context {
    type V = ContextView;

    closed spec fn view(&self) -> ContextView {
        ContextView {
            streams: self.streams@.map_values(|r: StreamRecord| r@),
            last_seek: self.last_seek,
        }
    }
}

/// How a container's view stands to its fields, for the handles' modules.
pub(crate) broadcast proof fn lemma_context_view(c: &Context)
    ensures
        #[trigger] c@ == (ContextView {
            streams: c.streams@.map_values(|r: StreamRecord| r@),
            last_seek: c.last_seek,
        }),
{
}

/// How a record's view stands to its fields, for the handles' modules.
pub(crate) broadcast proof fn lemma_record_view(r: &StreamRecord)
    ensures
        #[trigger] r@ == (StreamRecordView {
            time_base: r.time_base,
            rate: r.r_frame_rate,
            avg_frame_rate: r.avg_frame_rate,
            parameters: r.codecpar@,
            metadata: r.metadata@,
        }),
{
}

/// The record of a stream that was just added: rates of 0/1, parameters of no
/// codec, no metadata.
pub open spec fn fresh_record() -> StreamRecordView {
    StreamRecordView {
        time_base: Rational { num: 0, den: 1 },
        rate: Rational { num: 0, den: 1 },
        avg_frame_rate: Rational { num: 0, den: 1 },
        parameters: ParametersView {
            codec_id: 0,
            width: 0,
            height: 0,
            bit_rate: 0,
            extradata: Seq::empty(),
        },
        metadata: Seq::empty(),
    }
}

/// The status that the seek primitive answers with.
pub open spec fn spec_seek_file_status(c: ContextView, stream_index: usize, min_ts: i64, ts: i64, max_ts: i64) -> i32 {
    if stream_index < c.streams.len() && min_ts <= ts && ts <= max_ts {
        0
    } else {
        EINVAL
    }
}

impl Context {
    /// A container with no streams and no seek made.
    pub fn new() -> (r: Context)
        ensures
            r@.streams == Seq::<StreamRecordView>::empty(),
            r@.last_seek.is_none(),
    {
        let r = Context { streams: Vec::new(), last_seek: None };
        assert(r@.streams =~= Seq::<StreamRecordView>::empty());
        r
    }

    pub fn nb_streams(&self) -> (r: usize)
        ensures
            r == self@.streams.len(),
    {
        self.streams.len()
    }

    /// Appends a stream with a fresh record and returns its index.
    pub fn add_stream(&mut self) -> (r: usize)
        requires
            old(self)@.streams.len() < usize::MAX,
        ensures
            r == old(self)@.streams.len(),
            final(self)@.streams == old(self)@.streams.push(fresh_record()),
            final(self)@.last_seek == old(self)@.last_seek,
    {
        let r = self.streams.len();
        let rec = StreamRecord {
            time_base: Rational::new(0, 1),
            r_frame_rate: Rational::new(0, 1),
            avg_frame_rate: Rational::new(0, 1),
            codecpar: Parameters::new(),
            metadata: Dictionary::new(),
        };
        self.streams.push(rec);
        assert(self@.streams =~= old(self)@.streams.push(fresh_record()));
        r
    }

    /// The last seek that the container accepted.
    pub fn last_seek(&self) -> (r: Option<SeekRequest>)
        ensures
            r == self@.last_seek,
    {
        self.last_seek
    }

    /// Repositions the read cursor of stream `stream_index` at `ts`, which must
    /// lie between `min_ts` and `max_ts`. Answers 0 on success and `EINVAL`,
    /// leaving the container as it was, when the stream does not exist or the
    /// bounds do not enclose the target.
    pub fn seek_file(&mut self, stream_index: usize, min_ts: i64, ts: i64, max_ts: i64) -> (r: i32)
        ensures
            r == spec_seek_file_status(old(self)@, stream_index, min_ts, ts, max_ts),
            final(self)@.streams == old(self)@.streams,
            final(self)@.last_seek == if r == 0 {
                Some(SeekRequest { stream_index, min_ts, ts, max_ts })
            } else {
                old(self)@.last_seek
            },
    {
        if stream_index < self.streams.len() && min_ts <= ts && ts <= max_ts {
            self.last_seek = Some(SeekRequest { stream_index, min_ts, ts, max_ts });
            0
        } else {
            EINVAL
        }
    }

    /// Exclusive access to stream `index`, if there is one.
    pub fn stream_mut(&mut self, index: usize) -> (r: Option<StreamMut<'_>>)
        ensures
            r.is_some() == (index < old(self)@.streams.len()),
            match r {
                Some(s) => s.wf() && s.ctx() == old(self)@ && s.idx() == index && *final(self)
                    == *final(s.ctx_ref()),
                None => *final(self) == *old(self),
            },
    {
        if index < self.streams.len() {
            Some(StreamMut::wrap(self, index))
        } else {
            None
        }
    }

    /// A read-only view of stream `index`, if there is one.
    pub fn stream(&self, index: usize) -> (r: Option<Stream<'_>>)
        ensures
            r.is_some() == (index < self@.streams.len()),
            r.is_some() ==> r.unwrap().ctx() == self@ && r.unwrap().idx() == index,
    {
        if index < self.streams.len() {
            Some(Stream::wrap(self, index))
        } else {
            None
        }
    }
}

} // verus!
