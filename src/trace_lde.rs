//! The store for the low-degree extension of an execution trace: the main segment,
//! the auxiliary segments appended after it, and windowed reads of both.

use crate::frame::EvaluationFrame;
use crate::matrix::RowMatrix;
use vstd::arithmetic::div_mod::{
    lemma_fundamental_div_mod,
    lemma_mod_add_multiples_vanish,
    lemma_small_mod,
};
use vstd::prelude::*;
use vstd::slice::slice_to_vec;

verus! {

/// Why an operation on a [`TraceLde`] was refused. Each variant marks a mistake of
/// the caller, not a condition worth retrying.
#[derive(Debug, Clone, Copy, PartialEq, Eq, Structural)]
pub enum TraceLdeError {
    /// An auxiliary segment does not have as many rows as the main segment.
    RowCountMismatch,
    /// A frame was asked of the auxiliary trace while the number of auxiliary
    /// segments is not exactly one.
    AuxSegmentCount,
    /// No auxiliary segment stands at the given index.
    AuxSegmentIndexOutOfRange,
}

/// The total number of columns of a sequence of segments.
pub open spec fn widths_sum<T>(segments: Seq<RowMatrix<T>>) -> nat
    decreases segments.len(),
{
    if segments.len() == 0 {
        0
    } else {
        widths_sum(segments.drop_last()) + segments.last().width()
    }
}

proof fn lemma_widths_sum_prefix<T>(segments: Seq<RowMatrix<T>>, k: int)
    requires
        0 <= k <= segments.len(),
    ensures
        widths_sum(segments.take(k)) <= widths_sum(segments),
    decreases segments.len(),
{
    if k < segments.len() {
        lemma_widths_sum_prefix(segments.drop_last(), k);
        assert(segments.drop_last().take(k) =~= segments.take(k));
    } else {
        assert(segments.take(k) =~= segments);
    }
}

/// After a run of successful appends starting from a store with no auxiliary
/// segment, the auxiliary segments are exactly the appended ones, unmodified and in
/// order, and the auxiliary width is the sum of their column counts.
pub proof fn lemma_appended_segments_kept<B, E>(
    states: Seq<TraceLde<B, E>>,
    segments: Seq<RowMatrix<E>>,
)
    requires
        states.len() == segments.len() + 1,
        states[0].aux_segments().len() == 0,
        forall|j: int|
            0 <= j < segments.len() ==> states[j + 1].is_append_of(
                states[j],
                #[trigger] segments[j],
            ),
    ensures
        states.last().aux_segments() == segments,
        forall|i: int|
            0 <= i < segments.len() ==> #[trigger] states.last().aux_segments()[i] == segments[i],
        states.last().aux_width() == widths_sum(segments),
    decreases segments.len(),
{
    if segments.len() == 0 {
        assert(states.last().aux_segments() =~= segments);
    } else {
        let k = segments.len() - 1;
        lemma_appended_segments_kept(states.drop_last(), segments.drop_last());
        assert(states[k + 1].is_append_of(states[k], segments[k]));
        assert(states.last().aux_segments() =~= segments);
    }
}

/// The low-degree extension of an execution trace: a main segment over the base
/// field `B`, and the auxiliary segments over the extension field `E` appended to it
/// one at a time.
pub struct TraceLde<B, E> {
    main_segment_lde: RowMatrix<B>,
    aux_segment_ldes: Vec<RowMatrix<E>>,
    blowup: usize,
}

impl<B, E> TraceLde<B, E> {
    /// The main trace segment.
    pub closed spec fn main_segment(&self) -> RowMatrix<B> {
        self.main_segment_lde
    }

    /// The auxiliary trace segments, in the order they were appended.
    pub closed spec fn aux_segments(&self) -> Seq<RowMatrix<E>> {
        self.aux_segment_ldes@
    }

    /// The factor by which the original trace was extended.
    pub closed spec fn blowup_factor(&self) -> nat {
        self.blowup as nat
    }

    /// The size of the extended evaluation domain.
    pub open spec fn trace_length(&self) -> nat {
        self.main_segment()@.len()
    }

    /// The total number of columns of the auxiliary segments.
    pub open spec fn aux_width(&self) -> nat {
        widths_sum(self.aux_segments())
    }

    /// The position one step of the original trace after `lde_step`, wrapping
    /// around at the end of the extended domain.
    pub open spec fn next_step(&self, lde_step: int) -> int {
        (lde_step + self.blowup_factor()) % (self.trace_length() as int)
    }

    /// Every segment has the same, positive, number of rows, which is a multiple of
    /// the blowup factor; the auxiliary widths add up within a `usize`.
    pub open spec fn wf(&self) -> bool {
        &&& self.blowup_factor() > 0
        &&& self.trace_length() > 0
        &&& self.trace_length() % self.blowup_factor() == 0
        &&& forall|i: int|
            0 <= i < self.aux_segments().len() ==> (#[trigger] self.aux_segments()[i])@.len()
                == self.trace_length()
        &&& self.aux_width() <= usize::MAX
    }

    /// `self` is `prior` with `segment` appended to its auxiliary segments.
    pub open spec fn is_append_of(&self, prior: Self, segment: RowMatrix<E>) -> bool {
        &&& segment@.len() == prior.trace_length()
        &&& self.main_segment() == prior.main_segment()
        &&& self.blowup_factor() == prior.blowup_factor()
        &&& self.aux_segments() == prior.aux_segments().push(segment)
    }

    /// Creates the store from the extended main trace segment and the blowup factor
    /// it was extended with; it holds no auxiliary segment yet.
    pub fn new(main_trace_lde: RowMatrix<B>, blowup: usize) -> (r: Self)
        requires
            blowup > 0,
            main_trace_lde@.len() > 0,
            main_trace_lde@.len() % (blowup as nat) == 0,
        ensures
            r.wf(),
            r.main_segment() == main_trace_lde,
            r.aux_segments() == Seq::<RowMatrix<E>>::empty(),
            r.blowup_factor() == blowup,
            r.trace_length() == main_trace_lde@.len(),
            r.aux_width() == 0,
    {
        let r = TraceLde { main_segment_lde: main_trace_lde, aux_segment_ldes: Vec::new(), blowup };
        assert(r.aux_segments() =~= Seq::<RowMatrix<E>>::empty());
        r
    }

    /// Appends an extended auxiliary segment. It is refused, and the store left as
    /// it was, when its row count differs from the main segment's.
    pub fn add_aux_segment(&mut self, aux_segment_lde: RowMatrix<E>) -> (r: Result<
        (),
        TraceLdeError,
    >)
        requires
            old(self).wf(),
            aux_segment_lde@.len() == old(self).trace_length() ==> old(self).aux_width()
                + aux_segment_lde.width() <= usize::MAX,
        ensures
            final(self).wf(),
            r is Ok <==> aux_segment_lde@.len() == old(self).trace_length(),
            r is Ok ==> final(self).is_append_of(*old(self), aux_segment_lde),
            r is Err ==> r == Err::<(), TraceLdeError>(TraceLdeError::RowCountMismatch),
            r is Err ==> *final(self) == *old(self),
    {
        if self.main_segment_lde.num_rows() != aux_segment_lde.num_rows() {
            return Err(TraceLdeError::RowCountMismatch);
        }
        let ghost prior = self.aux_segment_ldes@;
        self.aux_segment_ldes.push(aux_segment_lde);
        proof {
            assert(self.aux_segment_ldes@.drop_last() =~= prior);
        }
        Ok(())
    }

    /// Returns the number of columns of the main trace segment.
    pub fn main_trace_width(&self) -> (r: usize)
        ensures
            r == self.main_segment().width(),
    {
        self.main_segment_lde.num_cols()
    }

    /// Returns the total number of columns of the auxiliary trace segments.
    pub fn aux_trace_width(&self) -> (r: usize)
        requires
            self.wf(),
        ensures
            r == self.aux_width(),
    {
        let segments = &self.aux_segment_ldes;
        let mut sum: usize = 0;
        let mut i: usize = 0;
        while i < segments.len()
            invariant
                self.wf(),
                segments@ == self.aux_segments(),
                i <= segments@.len(),
                sum == widths_sum(segments@.take(i as int)),
            decreases segments@.len() - i,
        {
            proof {
                lemma_widths_sum_prefix(segments@, i + 1);
                assert(segments@.take(i + 1).drop_last() =~= segments@.take(i as int));
            }
            sum = sum + segments[i].num_cols();
            i = i + 1;
        }
        assert(segments@.take(i as int) =~= segments@);
        sum
    }

    /// Returns the number of rows of the extended trace.
    pub fn trace_len(&self) -> (r: usize)
        ensures
            r == self.trace_length(),
    {
        self.main_segment_lde.num_rows()
    }

    /// Returns the factor by which the original trace was extended.
    pub fn blowup(&self) -> (r: usize)
        ensures
            r == self.blowup_factor(),
    {
        self.blowup
    }

    /// Returns the main trace segment.
    pub fn get_main_segment(&self) -> (r: &RowMatrix<B>)
        ensures
            *r == self.main_segment(),
    {
        &self.main_segment_lde
    }

    /// Returns the auxiliary trace segment at `aux_segment_idx`, or an error when no
    /// segment stands there.
    pub fn get_aux_segment(&self, aux_segment_idx: usize) -> (r: Result<
        &RowMatrix<E>,
        TraceLdeError,
    >)
        ensures
            r is Ok <==> aux_segment_idx < self.aux_segments().len(),
            r matches Ok(m) ==> *m == self.aux_segments()[aux_segment_idx as int],
            r is Err ==> r == Err::<&RowMatrix<E>, TraceLdeError>(
                TraceLdeError::AuxSegmentIndexOutOfRange,
            ),
    {
        if aux_segment_idx < self.aux_segment_ldes.len() {
            Ok(&self.aux_segment_ldes[aux_segment_idx])
        } else {
            Err(TraceLdeError::AuxSegmentIndexOutOfRange)
        }
    }

    /// Returns the position one step of the original trace after `lde_step`: at the
    /// end of the trace the next step wraps around to the start.
    fn next_lde_step(&self, lde_step: usize) -> (r: usize)
        requires
            self.wf(),
            lde_step < self.trace_length(),
        ensures
            r == self.next_step(lde_step as int),
            r < self.trace_length(),
    {
        let n = self.trace_len();
        let b = self.blowup;
        proof {
            lemma_fundamental_div_mod(n as int, b as int);
            assert(b <= n) by (nonlinear_arith)
                requires
                    n == b * (n as int / b as int) + n as int % b as int,
                    n as int % b as int == 0,
                    n > 0,
                    b > 0,
            ;
        }
        if lde_step >= n - b {
            let r = lde_step - (n - b);
            proof {
                lemma_small_mod(r as nat, n as nat);
                lemma_mod_add_multiples_vanish(r as int, n as int);
            }
            r
        } else {
            let r = lde_step + b;
            proof {
                lemma_small_mod(r as nat, n as nat);
            }
            r
        }
    }
}

impl<B: Copy, E: Copy> TraceLde<B, E> {
    /// Reads the row at `lde_step` of the main trace segment, and the row one trace
    /// step after it, into `frame`.
    pub fn read_main_trace_frame_into(&self, lde_step: usize, frame: &mut EvaluationFrame<B>)
        requires
            self.wf(),
            lde_step < self.trace_length(),
        ensures
            final(frame).current_row() == self.main_segment()@[lde_step as int],
            final(frame).next_row() == self.main_segment()@[self.next_step(lde_step as int)],
    {
        let next_lde_step = self.next_lde_step(lde_step);
        let segment = &self.main_segment_lde;
        frame.set_data(
            slice_to_vec(segment.row(lde_step)),
            slice_to_vec(segment.row(next_lde_step)),
        );
    }

    /// Reads the row at `lde_step` of the auxiliary segment at `aux_segment_idx`, and
    /// the row one trace step after it, into `frame`. Fails, leaving `frame` as it
    /// was, when no segment stands at that index.
    pub fn read_aux_segment_frame_into(
        &self,
        aux_segment_idx: usize,
        lde_step: usize,
        frame: &mut EvaluationFrame<E>,
    ) -> (r: Result<(), TraceLdeError>)
        requires
            self.wf(),
            lde_step < self.trace_length(),
        ensures
            r is Ok <==> aux_segment_idx < self.aux_segments().len(),
            r is Ok ==> final(frame).current_row() == self.aux_segments()[aux_segment_idx as int]@[lde_step as int],
            r is Ok ==> final(frame).next_row() == self.aux_segments()[aux_segment_idx as int]@[self.next_step(lde_step as int)],
            r is Err ==> r == Err::<(), TraceLdeError>(TraceLdeError::AuxSegmentIndexOutOfRange),
            r is Err ==> *final(frame) == *old(frame),
    {
        if aux_segment_idx >= self.aux_segment_ldes.len() {
            return Err(TraceLdeError::AuxSegmentIndexOutOfRange);
        }
        let next_lde_step = self.next_lde_step(lde_step);
        let segment = &self.aux_segment_ldes[aux_segment_idx];
        assert(segment@.len() == self.trace_length());
        frame.set_data(
            slice_to_vec(segment.row(lde_step)),
            slice_to_vec(segment.row(next_lde_step)),
        );
        Ok(())
    }

    /// Reads the row at `lde_step` of the one auxiliary segment, and the row one
    /// trace step after it, into `frame`. Fails, leaving `frame` as it was, unless
    /// exactly one auxiliary segment is present.
    pub fn read_aux_trace_frame_into(&self, lde_step: usize, frame: &mut EvaluationFrame<E>) -> (r:
        Result<(), TraceLdeError>)
        requires
            self.wf(),
            lde_step < self.trace_length(),
        ensures
            r is Ok <==> self.aux_segments().len() == 1,
            r is Ok ==> final(frame).current_row() == self.aux_segments()[0]@[lde_step as int],
            r is Ok ==> final(frame).next_row() == self.aux_segments()[0]@[self.next_step(lde_step as int)],
            r is Err ==> r == Err::<(), TraceLdeError>(TraceLdeError::AuxSegmentCount),
            r is Err ==> *final(frame) == *old(frame),
    {
        if self.aux_segment_ldes.len() != 1 {
            return Err(TraceLdeError::AuxSegmentCount);
        }
        self.read_aux_segment_frame_into(0, lde_step, frame)
    }
}

} // verus!
