use vhs_pipeline::bridge::{
    config_from_flat, flat_from_config, ChromaDemodFilter, ChromaLowpass, EffectConfig,
    LowPassType, LumaFilter, PhaseShift,
};
use vhs_pipeline::field::UseField;
use vhs_pipeline::field::FieldSelector;
use vhs_pipeline::planes::ColorPlanes;
use vhs_pipeline::scheduler::{
    FrameJob, FrameOutcome, Scheduler, SubmitResult, ThreadStatus, DEFAULT_COMPLETION_CAPACITY,
};

fn tiny_planes(tag: u32) -> ColorPlanes {
    ColorPlanes {
        luma: vec![tag],
        chroma_i: vec![tag + 1],
        chroma_q: vec![tag + 2],
        width: 1,
        height: 1,
        field: FieldSelector::All,
    }
}

fn any_config() -> EffectConfig {
    // Exercise the bridge on the way: the all-absent configuration survives
    // the flat round trip unchanged.
    config_from_flat(&flat_from_config(&default_config()))
}

fn default_config() -> EffectConfig {
    EffectConfig {
        random_seed: 0,
        use_field: UseField::Both,
        filter_type: LowPassType::ConstantK,
        input_luma_filter: LumaFilter::Notch,
        chroma_lowpass_in: ChromaLowpass::Full,
        chroma_demodulation: ChromaDemodFilter::BoxFilter,
        luma_smear: 0,
        composite_preemphasis: 0,
        video_scanline_phase_shift: PhaseShift::Degrees0,
        video_scanline_phase_shift_offset: 0,
        head_switching: None,
        tracking_noise: None,
        composite_noise_intensity: 0,
        ringing: None,
        chroma_noise: None,
        snow_intensity: 0,
        snow_anisotropy: 0,
        chroma_phase_noise_intensity: 0,
        chroma_phase_error: 0,
        chroma_delay_horizontal: 0,
        chroma_delay_vertical: 0,
        vhs_settings: None,
        chroma_vert_blend: false,
        chroma_lowpass_out: ChromaLowpass::Full,
        bandwidth_scale: 0,
    }
}

fn job(tag: u32) -> FrameJob {
    FrameJob { planes: tiny_planes(tag), config: any_config(), frame_index: tag as usize }
}

#[test]
fn second_submission_is_rejected_while_the_slot_is_full() {
    let mut s = Scheduler::new(DEFAULT_COMPLETION_CAPACITY);
    assert_eq!(s.submit(job(1)), SubmitResult::Accepted);
    // The worker has not taken the job: backpressure drops, it never blocks.
    assert_eq!(s.submit(job(2)), SubmitResult::Rejected);
    assert_eq!(s.submit(job(3)), SubmitResult::Rejected);
}

#[test]
fn at_most_one_job_ahead_of_the_worker() {
    let mut s = Scheduler::new(3);
    let mut accepted = 0u32;
    let mut takes = 0u32;
    for round in 0..20u32 {
        if s.submit(job(round)) == SubmitResult::Accepted {
            accepted += 1;
        }
        // The worker frees up only every third round.
        if round % 3 == 2 {
            if let Some(j) = s.worker_take() {
                takes += 1;
                // No overlap: a second take cannot succeed before publishing.
                assert!(s.worker_take().is_none());
                let _ = j;
                s.worker_publish(FrameOutcome::Failed);
                let _ = s.poll();
            }
        }
    }
    assert!(accepted <= takes + 1);
}

#[test]
fn completed_outcomes_come_back_in_submission_order() {
    let mut s = Scheduler::new(3);
    for tag in [10u32, 20, 30] {
        assert_eq!(s.submit(job(tag)), SubmitResult::Accepted);
        let taken = s.worker_take().expect("worker was waiting");
        s.worker_publish(FrameOutcome::Done(taken.planes));
    }
    for want in [10u32, 20, 30] {
        match s.poll() {
            Some(FrameOutcome::Done(p)) => assert_eq!(p.luma, vec![want]),
            other => panic!("expected a completed frame, got {:?}", other),
        }
    }
    assert!(s.poll().is_none());
}

#[test]
fn dead_worker_is_observed_and_a_replacement_recovers() {
    let mut s = Scheduler::new(DEFAULT_COMPLETION_CAPACITY);
    assert_eq!(s.status(), ThreadStatus::Alive);
    assert_eq!(s.submit(job(1)), SubmitResult::Accepted);
    let _ = s.worker_take();
    // The computation faults: the worker dies with the job.
    s.worker_fail();
    assert_eq!(s.status(), ThreadStatus::Dead);
    // A dead scheduler accepts nothing further.
    assert_eq!(s.submit(job(2)), SubmitResult::Rejected);

    // Replace the scheduler; the fresh worker serves a new submission.
    let mut s = Scheduler::new(DEFAULT_COMPLETION_CAPACITY);
    assert_eq!(s.status(), ThreadStatus::Alive);
    assert_eq!(s.submit(job(3)), SubmitResult::Accepted);
    let taken = s.worker_take().expect("fresh worker takes the job");
    s.worker_publish(FrameOutcome::Done(taken.planes));
    match s.poll() {
        Some(FrameOutcome::Done(p)) => assert_eq!(p.luma, vec![3]),
        other => panic!("expected the new worker's result, got {:?}", other),
    }
}

#[test]
fn publishing_fills_the_bounded_queue_up_to_capacity() {
    let mut s = Scheduler::new(2);
    for tag in [1u32, 2] {
        assert_eq!(s.submit(job(tag)), SubmitResult::Accepted);
        let taken = s.worker_take().unwrap();
        s.worker_publish(FrameOutcome::Done(taken.planes));
    }
    // Queue now holds two outcomes; the slot is free, so submission works,
    // and the worker may take, but publishing must wait for a poll first.
    assert_eq!(s.submit(job(3)), SubmitResult::Accepted);
    let taken = s.worker_take().unwrap();
    assert!(s.poll().is_some());
    s.worker_publish(FrameOutcome::Done(taken.planes));
    assert!(s.poll().is_some());
    assert!(s.poll().is_some());
    assert!(s.poll().is_none());
}
