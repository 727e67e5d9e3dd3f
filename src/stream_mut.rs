use vstd::prelude::*;
use vstd::std_specs::convert::IntoSpec;
use crate::bounds::{lower_bound, spec_lower, spec_seek_status, spec_upper, upper_bound, seek_status, TimestampRange};
use crate::context::{
    lemma_context_view, lemma_record_view, spec_seek_file_status, Context, ContextView, SeekRequest, StreamRecord,
    StreamRecordView,
};
use crate::dictionary::Dictionary;
use crate::error::Error;
use crate::parameters::Parameters;
use crate::rational::Rational;
use crate::stream::Stream;

verus! {

broadcast use {lemma_context_view, lemma_record_view};

/// The three rational fields of a stream record.
pub enum RateField {
    TimeBase,
    Rate,
    AvgFrameRate,
}

pub open spec fn rate_of(r: StreamRecordView, f: RateField) -> Rational {
    match f {
        RateField::TimeBase => r.time_base,
        RateField::Rate => r.rate,
        RateField::AvgFrameRate => r.avg_frame_rate,
    }
}

/// `c` with the record of stream `i` replaced by `r`.
pub open spec fn with_record(c: ContextView, i: int, r: StreamRecordView) -> ContextView {
    ContextView { streams: c.streams.update(i, r), ..c }
}

/// `c` with field `f` of stream `i` set to `v`.
pub open spec fn with_rate(c: ContextView, i: int, f: RateField, v: Rational) -> ContextView {
    let r = c.streams[i];
    with_record(
        c,
        i,
        match f {
            RateField::TimeBase => StreamRecordView { time_base: v, ..r },
            RateField::Rate => StreamRecordView { rate: v, ..r },
            RateField::AvgFrameRate => StreamRecordView { avg_frame_rate: v, ..r },
        },
    )
}

/// `c` with the metadata of stream `i` set to `m`.
pub open spec fn with_metadata(c: ContextView, i: int, m: Seq<(Seq<char>, Seq<char>)>) -> ContextView {
    with_record(c, i, StreamRecordView { metadata: m, ..c.streams[i] })
}

/// `c` after the writes of `ws`, in order, to the rational fields of stream `i`.
pub open spec fn with_rates(c: ContextView, i: int, ws: Seq<(RateField, Rational)>) -> ContextView
    decreases ws.len(),
{
    if ws.len() == 0 {
        c
    } else {
        with_rate(with_rates(c, i, ws.drop_last()), i, ws.last().0, ws.last().1)
    }
}

/// The value of the last write to `f` in `ws`, or `v` where none writes to `f`.
pub open spec fn last_written(ws: Seq<(RateField, Rational)>, f: RateField, v: Rational) -> Rational
    decreases ws.len(),
{
    if ws.len() == 0 {
        v
    } else if ws.last().0 == f {
        ws.last().1
    } else {
        last_written(ws.drop_last(), f, v)
    }
}

/// After any sequence of writes to the time base and frame rates of stream `i`,
/// each of those fields reads as the last value written to it, or as before
/// where nothing was written to it; nothing else in the container changes.
pub proof fn lemma_last_write_wins(c: ContextView, i: int, ws: Seq<(RateField, Rational)>)
    requires
        0 <= i < c.streams.len(),
    ensures
        with_rates(c, i, ws).streams.len() == c.streams.len(),
        forall|f: RateField|
            #[trigger] rate_of(with_rates(c, i, ws).streams[i], f) == last_written(
                ws,
                f,
                rate_of(c.streams[i], f),
            ),
        with_rates(c, i, ws).streams[i].parameters == c.streams[i].parameters,
        with_rates(c, i, ws).streams[i].metadata == c.streams[i].metadata,
        forall|j: int|
            0 <= j < c.streams.len() && j != i ==> #[trigger] with_rates(c, i, ws).streams[j]
                == c.streams[j],
        with_rates(c, i, ws).last_seek == c.last_seek,
    decreases ws.len(),
{
    if ws.len() > 0 {
        lemma_last_write_wins(c, i, ws.drop_last());
        let prev = with_rates(c, i, ws.drop_last());
        assert forall|f: RateField|
            #[trigger] rate_of(with_rates(c, i, ws).streams[i], f) == last_written(
                ws,
                f,
                rate_of(c.streams[i], f),
            ) by {
            assert(rate_of(prev.streams[i], f) == last_written(
                ws.drop_last(),
                f,
                rate_of(c.streams[i], f),
            ));
        }
    }
}

/// Setting the metadata of a stream twice leaves only the second map: nothing
/// of the first survives.
pub proof fn lemma_metadata_replaced(
    c: ContextView,
    i: int,
    m1: Seq<(Seq<char>, Seq<char>)>,
    m2: Seq<(Seq<char>, Seq<char>)>,
)
    requires
        0 <= i < c.streams.len(),
    ensures
        with_metadata(with_metadata(c, i, m1), i, m2) == with_metadata(c, i, m2),
        with_metadata(with_metadata(c, i, m1), i, m2).streams[i].metadata == m2,
{
    assert(with_metadata(with_metadata(c, i, m1), i, m2).streams =~= with_metadata(c, i, m2).streams);
}

/// Exclusive access to the stream at an index within a container. It holds the
/// container's only live borrow, so no other handle, read-only or not, can reach
/// the container while it exists; reads go through the view that [`Self::stream`]
/// lends out.
pub struct StreamMut<'a> {
    context: &'a mut Context,
    index: usize,
}

impl<'a> StreamMut<'a> {
    /// The container as the handle now sees it.
    pub open spec fn ctx(&self) -> ContextView {
        (*self.ctx_ref())@
    }

    /// The borrow of the container that the handle holds.
    pub closed spec fn ctx_ref(&self) -> &'a mut Context {
        self.context
    }

    pub closed spec fn idx(&self) -> usize {
        self.index
    }

    /// The index denotes a stream of the container.
    pub open spec fn wf(&self) -> bool {
        self.idx() < self.ctx().streams.len()
    }

    /// The record that the handle writes.
    pub open spec fn record(&self) -> StreamRecordView {
        self.ctx().streams[self.idx() as int]
    }

    /// Once a handle is done with, the container holds what the handle last saw.
    pub broadcast proof fn lemma_resolved(s: StreamMut<'a>)
        ensures
            #[trigger] has_resolved(s) ==> *final(s.ctx_ref()) == *s.ctx_ref(),
    {
    }

    /// Exclusive access to stream `index` of `context`.
    pub fn wrap(context: &'a mut Context, index: usize) -> (r: StreamMut<'a>)
        requires
            index < old(context)@.streams.len(),
        ensures
            r.wf(),
            r.ctx() == old(context)@,
            r.idx() == index,
            *final(context) == *final(r.ctx_ref()),
    {
        StreamMut { context, index }
    }

    /// The record of the stream, for writing.
    pub fn as_mut_ptr(&mut self) -> (r: &mut StreamRecord)
        requires
            old(self).wf(),
        ensures
            r@ == old(self).record(),
            final(self).idx() == old(self).idx(),
            final(self).ctx().streams.len() == old(self).ctx().streams.len(),
            final(self).record() == final(r)@,
            forall|j: int|
                0 <= j < old(self).ctx().streams.len() && j != old(self).idx() ==> final(self).ctx().streams[j]
                    == #[trigger] old(self).ctx().streams[j],
            final(self).ctx().last_seek == old(self).ctx().last_seek,
            *final(final(self).ctx_ref()) == *final(old(self).ctx_ref()),
    {
        proof {
        }
        &mut self.context.streams[self.index]
    }

    /// The read-only view of the same stream, for as long as this handle is
    /// borrowed.
    pub fn stream(&self) -> (r: Stream<'_>)
        requires
            self.wf(),
        ensures
            r.ctx() == self.ctx(),
            r.idx() == self.idx(),
    {
        Stream::wrap(&*self.context, self.index)
    }

    /// Gives up write access: the read-only view of the same stream, for the
    /// rest of the container's borrow.
    pub fn into_stream(self) -> (r: Stream<'a>)
        requires
            self.wf(),
        ensures
            r.ctx() == self.ctx(),
            r.idx() == self.idx(),
            *final(self.ctx_ref()) == *self.ctx_ref(),
    {
        Stream::wrap(self.context, self.index)
    }

    /// Sets the unit in which the stream's timestamps are expressed.
    pub fn set_time_base<R: Into<Rational>>(&mut self, value: R)
        requires
            old(self).wf(),
        ensures
            final(self).idx() == old(self).idx(),
            final(self).ctx() == with_rate(
                old(self).ctx(),
                old(self).idx() as int,
                RateField::TimeBase,
                final(self).record().time_base,
            ),
            R::obeys_into_spec() ==> final(self).record().time_base == value.into_spec(),
            *final(final(self).ctx_ref()) == *final(old(self).ctx_ref()),
    {
        self.as_mut_ptr().time_base = value.into();
        assert(self.ctx().streams =~= with_rate(
            old(self).ctx(),
            old(self).idx() as int,
            RateField::TimeBase,
            self.record().time_base,
        ).streams);
    }

    /// Sets the frame rate that the container declares for the stream.
    pub fn set_rate<R: Into<Rational>>(&mut self, value: R)
        requires
            old(self).wf(),
        ensures
            final(self).idx() == old(self).idx(),
            final(self).ctx() == with_rate(
                old(self).ctx(),
                old(self).idx() as int,
                RateField::Rate,
                final(self).record().rate,
            ),
            R::obeys_into_spec() ==> final(self).record().rate == value.into_spec(),
            *final(final(self).ctx_ref()) == *final(old(self).ctx_ref()),
    {
        self.as_mut_ptr().r_frame_rate = value.into();
        assert(self.ctx().streams =~= with_rate(
            old(self).ctx(),
            old(self).idx() as int,
            RateField::Rate,
            self.record().rate,
        ).streams);
    }

    /// Sets the stream's average frame rate.
    pub fn set_avg_frame_rate<R: Into<Rational>>(&mut self, value: R)
        requires
            old(self).wf(),
        ensures
            final(self).idx() == old(self).idx(),
            final(self).ctx() == with_rate(
                old(self).ctx(),
                old(self).idx() as int,
                RateField::AvgFrameRate,
                final(self).record().avg_frame_rate,
            ),
            R::obeys_into_spec() ==> final(self).record().avg_frame_rate == value.into_spec(),
            *final(final(self).ctx_ref()) == *final(old(self).ctx_ref()),
    {
        self.as_mut_ptr().avg_frame_rate = value.into();
        assert(self.ctx().streams =~= with_rate(
            old(self).ctx(),
            old(self).idx() as int,
            RateField::AvgFrameRate,
            self.record().avg_frame_rate,
        ).streams);
    }

    /// Copies every field of `parameters`, the extra data included, into the
    /// stream's own codec parameters. `parameters` stays with the caller,
    /// unchanged; the stream shares nothing with it afterwards.
    pub fn set_parameters(&mut self, parameters: &Parameters)
        requires
            old(self).wf(),
        ensures
            final(self).idx() == old(self).idx(),
            final(self).ctx() == with_record(
                old(self).ctx(),
                old(self).idx() as int,
                StreamRecordView { parameters: parameters@, ..old(self).record() },
            ),
            *final(final(self).ctx_ref()) == *final(old(self).ctx_ref()),
    {
        self.as_mut_ptr().codecpar.copy_from(parameters);
        assert(self.ctx().streams =~= with_record(
            old(self).ctx(),
            old(self).idx() as int,
            StreamRecordView { parameters: parameters@, ..old(self).record() },
        ).streams);
    }

    /// Hands `metadata` over to the stream: it takes the place of the stream's
    /// metadata, whose former entries are dropped, not merged.
    pub fn set_metadata(&mut self, metadata: Dictionary)
        requires
            old(self).wf(),
        ensures
            final(self).idx() == old(self).idx(),
            final(self).ctx() == with_metadata(old(self).ctx(), old(self).idx() as int, metadata@),
            *final(final(self).ctx_ref()) == *final(old(self).ctx_ref()),
    {
        let ghost m = metadata@;
        self.as_mut_ptr().metadata = metadata;
        assert(self.ctx().streams =~= with_metadata(old(self).ctx(), old(self).idx() as int, m).streams);
    }

    /// Asks the container to move the stream's read cursor to `ts`, accepting
    /// any position within `range`. The range's ends become the absolute bounds
    /// of [`crate::seek_bounds`]; a negative status of the container becomes
    /// `Error::SeekFailed` with that status.
    pub fn seek(&mut self, ts: i64, range: TimestampRange) -> (r: Result<(), Error>)
        requires
            old(self).wf(),
        ensures
            ({
                let lo = spec_lower(range.start);
                let hi = spec_upper(range.end);
                let i = old(self).idx();
                &&& r == spec_seek_status(spec_seek_file_status(old(self).ctx(), i, lo, ts, hi))
                &&& final(self).ctx().streams == old(self).ctx().streams
                &&& final(self).ctx().last_seek == if r is Ok {
                    Some(SeekRequest { stream_index: i, min_ts: lo, ts, max_ts: hi })
                } else {
                    old(self).ctx().last_seek
                }
            }),
            final(self).idx() == old(self).idx(),
            *final(final(self).ctx_ref()) == *final(old(self).ctx_ref()),
    {
        let lo = lower_bound(range.start);
        let hi = upper_bound(range.end);
        let code = self.context.seek_file(self.index, lo, ts, hi);
        seek_status(code)
    }
}

} // verus!
