use vstd::prelude::*;
use crate::context::{lemma_context_view, lemma_record_view, Context, ContextView, StreamRecordView};
use crate::dictionary::Dictionary;
use crate::parameters::Parameters;
use crate::rational::Rational;

verus! {

broadcast use {lemma_context_view, lemma_record_view};

/// A read-only view of the stream at an index within a container. It lives no
/// longer than its shared borrow of the container, so no handle can write to the
/// container while the view exists.
pub struct Stream<'a> {
    context: &'a Context,
    index: usize,
}

impl<'a> Stream<'a> {
    #[verifier::type_invariant]
    spec fn index_in_table(&self) -> bool {
        self.index < self.context.streams@.len()
    }

    /// The container that the view reads.
    pub closed spec fn ctx(&self) -> ContextView {
        self.context@
    }

    /// The index of the stream that the view reads.
    pub closed spec fn idx(&self) -> usize {
        self.index
    }

    /// The record that the view reads.
    pub open spec fn record(&self) -> StreamRecordView {
        self.ctx().streams[self.idx() as int]
    }

    /// A view of stream `index` of `context`.
    pub fn wrap(context: &'a Context, index: usize) -> (r: Stream<'a>)
        requires
            index < context@.streams.len(),
        ensures
            r.ctx() == context@,
            r.idx() == index,
    {
        Stream { context, index }
    }

    pub fn index(&self) -> (r: usize)
        ensures
            r == self.idx(),
            r < self.ctx().streams.len(),
    {
        proof {
            use_type_invariant(self);
        }
        self.index
    }

    /// The unit in which the stream's timestamps are expressed.
    pub fn time_base(&self) -> (r: Rational)
        ensures
            r == self.record().time_base,
    {
        proof {
            use_type_invariant(self);
        }
        self.context.streams[self.index].time_base
    }

    /// The frame rate that the container declares for the stream.
    pub fn rate(&self) -> (r: Rational)
        ensures
            r == self.record().rate,
    {
        proof {
            use_type_invariant(self);
        }
        self.context.streams[self.index].r_frame_rate
    }

    /// The stream's average frame rate.
    pub fn avg_frame_rate(&self) -> (r: Rational)
        ensures
            r == self.record().avg_frame_rate,
    {
        proof {
            use_type_invariant(self);
        }
        self.context.streams[self.index].avg_frame_rate
    }

    /// The stream's codec parameters.
    pub fn parameters(&self) -> (r: &'a Parameters)
        ensures
            r@ == self.record().parameters,
    {
        proof {
            use_type_invariant(self);
        }
        &self.context.streams[self.index].codecpar
    }

    /// The stream's metadata.
    pub fn metadata(&self) -> (r: &'a Dictionary)
        ensures
            r@ == self.record().metadata,
    {
        proof {
            use_type_invariant(self);
        }
        &self.context.streams[self.index].metadata
    }
}

} // verus!
