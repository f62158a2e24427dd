use vstd::prelude::*;
use crate::bridge::EffectConfig;
use crate::decode::{decode, spec_decodable, spec_decoded_plane};
use crate::encode::{encode, spec_encodable, spec_encoded_image, RgbBuffer};
use crate::field::{field_for_frame, num_image_rows, spec_field_for_frame};
use crate::format::PixelBuffer;
use crate::output::{spec_rgba_of, spec_word_bytes, to_rgba_bytes};
use crate::planes::ColorPlanes;
use crate::scheduler::{
    spec_fresh, spec_poll, spec_status, spec_submit, spec_worker_publish, spec_worker_take,
    FrameJob, FrameOutcome, Scheduler, SchedulerModel, SubmitResult, ThreadStatus,
    DEFAULT_COMPLETION_CAPACITY,
};

verus! {

/// `job` is exactly what `decode` builds for `buffer` under `config` at
/// `frame_index`: the configured field policy resolved by frame parity, and
/// the three decoded planes.
pub open spec fn spec_decoded_job(
    job: FrameJob,
    buffer: PixelBuffer,
    config: EffectConfig,
    frame_index: int,
) -> bool {
    let field = spec_field_for_frame(config.use_field, frame_index as nat);
    &&& job.config == config
    &&& job.frame_index == frame_index
    &&& job.planes.wf()
    &&& job.planes.width == buffer.width
    &&& job.planes.height == buffer.height
    &&& job.planes.field == field
    &&& job.planes.luma@ == spec_decoded_plane(buffer, field, 0)
    &&& job.planes.chroma_i@ == spec_decoded_plane(buffer, field, 1)
    &&& job.planes.chroma_q@ == spec_decoded_plane(buffer, field, 2)
}

/// What one polled outcome yields at the encoder: the dimensions and sample
/// words of the densified image, or nothing for a missing, failed, or
/// unencodable outcome.
pub open spec fn spec_frame_output(polled: Option<FrameOutcome>) -> Option<(nat, nat, Seq<u32>)> {
    match polled {
        Some(FrameOutcome::Done(p)) => if spec_encodable(p) {
            Some(((p.width as nat, p.height as nat, spec_encoded_image(p))))
        } else {
            None
        },
        Some(FrameOutcome::Failed) => None,
        None => None,
    }
}

/// `r` carries exactly the image `out` describes.
pub open spec fn spec_matches_output(r: Option<RgbBuffer>, out: Option<(nat, nat, Seq<u32>)>) -> bool {
    match r {
        Some(rgb) => out == Some(((rgb.width as nat, rgb.height as nat, rgb.data@))),
        None => out is None,
    }
}

/// The RGBA quantization of an encoder output: defined when every sample
/// word fits one byte and the dimensions fit the image container.
pub open spec fn spec_rgba_output(out: Option<(nat, nat, Seq<u32>)>) -> Option<(nat, nat, Seq<u8>)> {
    match out {
        Some((w, h, words)) => if (forall|i: int| 0 <= i < words.len() ==> #[trigger] words[i] <= 255)
            && w <= u32::MAX && h <= u32::MAX {
            Some((w, h, spec_rgba_of(spec_word_bytes(words))))
        } else {
            None
        },
        None => None,
    }
}

/// Whether planes can be encoded, decided at run time.
pub fn encodable(p: &ColorPlanes) -> (r: bool)
    ensures
        r == spec_encodable(*p),
{
    let rows = num_image_rows(p.height, p.field);
    let len_ok: bool = match p.width.checked_mul(rows) {
        Some(n) => p.luma.len() == n && p.chroma_i.len() == n && p.chroma_q.len() == n,
        None => {
            // Bind the length so its machine-word bound witnesses the mismatch.
            let _n = p.luma.len();
            proof {
                assert(p.plane_len() > usize::MAX);
            }
            false
        },
    };
    let rows_ok: bool = p.height == 0 || rows >= 1;
    let size_ok: bool = if p.height == 0 {
        true
    } else {
        match 3usize.checked_mul(p.width) {
            Some(a) => a.checked_mul(p.height).is_some(),
            None => {
                proof {
                    assert(3 * p.width * p.height > usize::MAX) by (nonlinear_arith)
                        requires
                            3 * p.width > usize::MAX,
                            p.height >= 1,
                    ;
                }
                false
            },
        }
    };
    proof {
        // Tie each run-time check to its clause of `spec_encodable`.
        assert(len_ok ==> p.wf());
        assert(rows_ok == (p.height == 0 || p.plane_rows() >= 1));
        assert(size_ok == (3 * p.width * p.height <= usize::MAX));
    }
    len_ok && rows_ok && size_ok
}

/// Encode one polled outcome if there is one and it can be encoded.
pub fn outcome_to_rgb(polled: Option<FrameOutcome>) -> (r: Option<RgbBuffer>)
    ensures
        spec_matches_output(r, spec_frame_output(polled)),
{
    match polled {
        Some(FrameOutcome::Done(p)) => {
            if encodable(&p) {
                Some(encode(&p))
            } else {
                None
            }
        },
        Some(FrameOutcome::Failed) => None,
        None => None,
    }
}

impl Scheduler {
    /// The worker-driven path's caller side, composed: decode, submit or
    /// silently skip under backpressure, poll, and encode whatever outcome
    /// was ready.
    ///
    /// The returned image, when there is one, is the oldest buffered
    /// completion: the output runs one or more frames behind the buffer just
    /// passed in, by design. `None` means the buffer could not be decoded or
    /// nothing was ready yet; both are quiet per-frame conditions.
    pub fn apply_effect(&mut self, buffer: &PixelBuffer, config: EffectConfig, frame_index: usize) -> (r:
        Option<RgbBuffer>)
        ensures
            !spec_decodable(*buffer) ==> final(self).view() == old(self).view() && r is None,
            spec_decodable(*buffer) ==> exists|job: FrameJob|
                {
                    let m1 = spec_submit(old(self).view(), job).0;
                    let m2 = spec_poll(m1).0;
                    let polled = spec_poll(m1).1;
                    &&& #[trigger] spec_decoded_job(job, *buffer, config, frame_index as int)
                    &&& final(self).view() == m2
                    &&& spec_matches_output(r, spec_frame_output(polled))
                },
    {
        let field = field_for_frame(&config.use_field, frame_index);
        let planes = match decode(buffer, field) {
            Some(p) => p,
            None => {
                return None;
            },
        };
        let job = FrameJob { planes, config, frame_index };
        let ghost jobg = job;
        let _ = self.submit(job);
        let polled = self.poll();
        let r = outcome_to_rgb(polled);
        proof {
            assert(spec_decoded_job(jobg, *buffer, config, frame_index as int));
        }
        r
    }
}

/// The same-thread fallback: decode, run the engine on the calling thread,
/// encode. `engine` is the externally supplied effect computation, a pure
/// function of the job; the result is `None` exactly when decoding fails or
/// the engine's outcome cannot be encoded.
pub fn apply_effect_sync<F: FnOnce(FrameJob) -> FrameOutcome>(
    buffer: &PixelBuffer,
    config: EffectConfig,
    frame_index: usize,
    engine: F,
) -> (r: Option<RgbBuffer>)
    requires
        forall|job: FrameJob|
            spec_decoded_job(job, *buffer, config, frame_index as int) ==> call_requires(
                engine,
                (job,),
            ),
    ensures
        !spec_decodable(*buffer) ==> r is None,
        spec_decodable(*buffer) ==> exists|job: FrameJob, o: FrameOutcome|
            {
                &&& spec_decoded_job(job, *buffer, config, frame_index as int)
                &&& #[trigger] call_ensures(engine, (job,), o)
                &&& spec_matches_output(r, spec_frame_output(Some(o)))
            },
{
    let field = field_for_frame(&config.use_field, frame_index);
    let planes = match decode(buffer, field) {
        Some(p) => p,
        None => {
            return None;
        },
    };
    let job = FrameJob { planes, config, frame_index };
    let ghost jobg = job;
    proof {
        assert(spec_decoded_job(jobg, *buffer, config, frame_index as int));
    }
    let o = engine(job);
    let r = outcome_to_rgb(Some(o));
    r
}

/// One blocking drain of the worker path agrees with the synchronous path:
/// on an idle scheduler, a submission is accepted, the worker takes exactly
/// that job, and the outcome it publishes is what the drain polls; the
/// encoded output is then the same function of that outcome that the
/// synchronous path applies. The two paths differ only in where the engine
/// runs, never in the produced image.
pub proof fn lemma_sync_async_equivalence(m: SchedulerModel, job: FrameJob, outcome: FrameOutcome)
    requires
        m.phase is Waiting,
        m.handoff is None,
        m.completed.len() == 0,
    ensures
        ({
            let (m1, accepted) = spec_submit(m, job);
            let (m2, taken) = spec_worker_take(m1);
            let m3 = spec_worker_publish(m2, outcome);
            let (m4, polled) = spec_poll(m3);
            &&& accepted == SubmitResult::Accepted
            &&& taken == Some(job)
            &&& polled == Some(outcome)
            &&& spec_frame_output(polled) == spec_frame_output(Some(outcome))
        }),
{
}

/// Whether the operator has gone through its one-time initialization.
#[derive(Clone, Copy, Debug, PartialEq, Eq, Structural)]
pub enum InitState {
    Uninitialized,
    Ready,
}

/// What one cook produced, beyond bookkeeping: no input to work on, no image
/// this cycle (decode failure, nothing ready, or a failed or unencodable
/// outcome), or an RGBA image to upload.
#[derive(Debug)]
pub enum CookOutcome {
    MissingInput,
    EffectFailed,
    Output { data: Vec<u8>, width: usize, height: usize },
}

/// One cook's decisions for the surrounding shim: whether the dead worker
/// was replaced (the old one must be joined), whether parameters must be
/// reset to defaults, and the outcome.
#[derive(Debug)]
pub struct CookReport {
    pub restarted: bool,
    pub reset_params: bool,
    pub outcome: CookOutcome,
}

/// `outcome` carries exactly the image `out` describes, or reports no image
/// exactly when `out` is nothing.
pub open spec fn spec_outcome_matches(outcome: CookOutcome, out: Option<(nat, nat, Seq<u8>)>) -> bool {
    match outcome {
        CookOutcome::Output { data, width, height } => out == Some(
            ((width as nat, height as nat, data@)),
        ),
        CookOutcome::EffectFailed => out is None,
        CookOutcome::MissingInput => false,
    }
}

/// Per-operator state owned across cooks: the accumulating execute counter,
/// the explicit one-time-initialization state, and the replaceable scheduler
/// handle.
#[derive(Debug)]
pub struct Operator {
    pub execute_count: usize,
    pub init: InitState,
    pub scheduler: Scheduler,
}

impl Operator {
    /// A fresh operator: nothing cooked yet, not yet initialized, live
    /// scheduler at the default completion capacity.
    pub fn new() -> (r: Operator)
        ensures
            r.execute_count == 0,
            r.init is Uninitialized,
            r.scheduler.view() == spec_fresh(DEFAULT_COMPLETION_CAPACITY as nat),
    {
        Operator {
            execute_count: 0,
            init: InitState::Uninitialized,
            scheduler: Scheduler::new(DEFAULT_COMPLETION_CAPACITY),
        }
    }

    /// One cook cycle's decision core. Counts the invocation; replaces a
    /// dead scheduler (the caller joins the old worker) and then requires
    /// re-initialization; reports a missing input; otherwise runs the
    /// worker-driven path and quantizes whatever image it yielded.
    pub fn cook(&mut self, input: Option<PixelBuffer>, config: EffectConfig) -> (r: CookReport)
        requires
            old(self).execute_count < usize::MAX,
        ensures
            final(self).execute_count == old(self).execute_count + 1,
            final(self).init is Ready,
            r.restarted == (spec_status(old(self).scheduler.view()) == ThreadStatus::Dead),
            r.reset_params == (r.restarted || old(self).init is Uninitialized),
            ({
                let m0 = if r.restarted {
                    spec_fresh(DEFAULT_COMPLETION_CAPACITY as nat)
                } else {
                    old(self).scheduler.view()
                };
                let frame = old(self).execute_count + 1;
                match input {
                    None => r.outcome is MissingInput && final(self).scheduler.view() == m0,
                    Some(buffer) => {
                        &&& !(r.outcome is MissingInput)
                        &&& (!spec_decodable(buffer) ==> r.outcome is EffectFailed
                            && final(self).scheduler.view() == m0)
                        &&& (spec_decodable(buffer) ==> exists|job: FrameJob|
                            {
                                let m1 = spec_submit(m0, job).0;
                                let m2 = spec_poll(m1).0;
                                let polled = spec_poll(m1).1;
                                &&& #[trigger] spec_decoded_job(job, buffer, config, frame)
                                &&& final(self).scheduler.view() == m2
                                &&& spec_outcome_matches(
                                    r.outcome,
                                    spec_rgba_output(spec_frame_output(polled)),
                                )
                            })
                    },
                }
            }),
    {
        self.execute_count = self.execute_count + 1;
        let restarted = match self.scheduler.status() {
            ThreadStatus::Dead => true,
            ThreadStatus::Alive => false,
        };
        if restarted {
            self.scheduler = Scheduler::new(DEFAULT_COMPLETION_CAPACITY);
            self.init = InitState::Uninitialized;
        }
        let reset_params = match self.init {
            InitState::Uninitialized => true,
            InitState::Ready => false,
        };
        self.init = InitState::Ready;
        let buffer = match input {
            Some(b) => b,
            None => {
                return CookReport { restarted, reset_params, outcome: CookOutcome::MissingInput };
            },
        };
        let out = self.scheduler.apply_effect(&buffer, config, self.execute_count);
        let outcome = match out {
            Some(rgb) => {
                match to_rgba_bytes(&rgb) {
                    Some(data) => CookOutcome::Output { data, width: rgb.width, height: rgb.height },
                    None => CookOutcome::EffectFailed,
                }
            },
            None => CookOutcome::EffectFailed,
        };
        CookReport { restarted, reset_params, outcome }
    }
}

} // verus!
