use arrt::{
    get_pixel_index, process_job, sample_background, sample_colour, schedule_work,
    unit_from_signed, Direction, Job, JobQueue, Material, MaterialBank, MaterialKind,
    QualityPresetBank, RayJob, RayJobResult, ResultAggregator, Rgb, SceneHit,
    SchedulerController, CHANNEL_ONE, SIGNED_ONE,
};

fn settings(debug_normals: bool) -> Job {
    let mut materials = MaterialBank::new(String::new());
    materials.insert(
        "mirror".to_string(),
        Material {
            name: String::new(),
            diffuse: Rgb { r: CHANNEL_ONE, g: CHANNEL_ONE, b: CHANNEL_ONE },
            absorbed: 13107,
            kind: MaterialKind::Mirror,
        },
    );
    materials.insert(
        "red".to_string(),
        Material { name: String::new(), diffuse: Rgb { r: CHANNEL_ONE, g: 0, b: 0 }, absorbed: 0, kind: MaterialKind::Diffuse },
    );
    Job::new(QualityPresetBank::get_default(), materials, debug_normals, false)
}

fn job(bounce_index: u32, max_bounces: u32) -> RayJob<u32> {
    RayJob {
        pixel_index: 4,
        sample_index: 1,
        ray_index: 5,
        bounce_index,
        ray: 7,
        max_bounces,
        generation: 3,
    }
}

fn hit(material: &str) -> SceneHit {
    SceneHit::Hit { material: material.to_string(), normal: Direction { x: 0, y: SIGNED_ONE, z: 0 } }
}

fn result(ray_index: usize, bounce_index: u32, generation: u64, colour: Rgb) -> RayJobResult {
    RayJobResult { pixel_index: 0, sample_index: 0, ray_index, bounce_index, generation, colour }
}

fn grey(v: u16) -> Rgb {
    Rgb { r: v, g: v, b: v }
}

#[test]
fn pixel_index_formula() {
    assert_eq!(get_pixel_index(0, 0, 640, 8), 0);
    assert_eq!(get_pixel_index(3, 2, 10, 4), (2 * 10 + 3) * 4);
    assert_eq!(get_pixel_index(5, 5, 10, 0), 0);
}

#[test]
fn signed_components_map_to_unit_range() {
    assert_eq!(unit_from_signed(SIGNED_ONE), CHANNEL_ONE);
    assert_eq!(unit_from_signed(-SIGNED_ONE), 0);
    assert_eq!(unit_from_signed(0), 32767);
}

#[test]
fn background_gradient() {
    assert_eq!(sample_background(-SIGNED_ONE), Rgb { r: CHANNEL_ONE, g: CHANNEL_ONE, b: CHANNEL_ONE });
    assert_eq!(sample_background(SIGNED_ONE), Rgb { r: 32768, g: 45875, b: CHANNEL_ONE });
    assert_eq!(sample_background(0), Rgb { r: 49151, g: 55705, b: CHANNEL_ONE });
}

#[test]
fn sample_colour_cases() {
    let s = settings(false);
    assert_eq!(sample_colour(&s, &SceneHit::Miss, SIGNED_ONE), Rgb { r: 32768, g: 45875, b: CHANNEL_ONE });
    assert_eq!(sample_colour(&s, &hit("red"), 0), Rgb { r: CHANNEL_ONE, g: 0, b: 0 });
    assert_eq!(sample_colour(&s, &hit("unknown"), 0), Rgb { r: 45874, g: 0, b: 0 });
    let d = settings(true);
    assert_eq!(sample_colour(&d, &SceneHit::Miss, 0), Rgb { r: 32767, g: CHANNEL_ONE, b: 32767 });
    let side = SceneHit::Hit { material: "red".to_string(), normal: Direction { x: -SIGNED_ONE, y: 0, z: SIGNED_ONE } };
    assert_eq!(sample_colour(&d, &side, 0), Rgb { r: 0, g: 32767, b: CHANNEL_ONE });
}

#[test]
fn hit_with_budget_continues_with_material_kind() {
    let s = settings(false);
    let step = process_job(&s, &job(0, 2), &hit("mirror"), 0);
    assert_eq!(step.bounce, Some(MaterialKind::Mirror));
    assert_eq!(step.result.ray_index, 5);
    assert_eq!(step.result.pixel_index, 4);
    assert_eq!(step.result.sample_index, 1);
    assert_eq!(step.result.bounce_index, 0);
    assert_eq!(step.result.generation, 3);
    assert_eq!(step.result.colour, grey(52428));
    let step = process_job(&s, &job(1, 2), &hit("red"), 0);
    assert_eq!(step.bounce, Some(MaterialKind::Diffuse));
    assert_eq!(step.result.bounce_index, 1);
}

#[test]
fn miss_never_continues() {
    let s = settings(false);
    let step = process_job(&s, &job(0, 5), &SceneHit::Miss, -SIGNED_ONE);
    assert_eq!(step.bounce, None);
    assert_eq!(step.result.colour, Rgb::white());
}

#[test]
fn spent_bounce_budget_never_continues() {
    let s = settings(false);
    for h in [hit("mirror"), hit("red"), SceneHit::Miss] {
        let step = process_job(&s, &job(4, 4), &h, 0);
        assert_eq!(step.bounce, None);
        assert_eq!(step.result.bounce_index, 4);
    }
}

#[test]
fn bounce_job_keeps_chain_identity() {
    let next = job(1, 3).bounce(99);
    assert_eq!(next.bounce_index, 2);
    assert_eq!(next.ray, 99);
    assert_eq!((next.pixel_index, next.sample_index, next.ray_index), (4, 1, 5));
    assert_eq!((next.max_bounces, next.generation), (3, 3));
}

#[test]
fn queue_is_fifo() {
    let mut q: JobQueue<u32> = JobQueue::new();
    assert!(q.is_empty());
    assert!(q.try_dequeue().is_none());
    q.enqueue(job(0, 1));
    q.enqueue(job(1, 1));
    assert_eq!(q.len(), 2);
    assert_eq!(q.try_dequeue().map(|j| j.bounce_index), Some(0));
    assert_eq!(q.try_dequeue().map(|j| j.bounce_index), Some(1));
    assert!(q.try_dequeue().is_none());
}

#[test]
fn replace_drops_old_jobs_and_retags() {
    let mut q: JobQueue<u32> = JobQueue::new();
    q.enqueue(job(0, 1));
    q.enqueue(job(0, 1));
    q.replace(&vec![job(1, 1)], 9);
    assert_eq!(q.len(), 1);
    let j = q.try_dequeue().unwrap();
    assert_eq!(j.generation, 9);
    assert_eq!(j.bounce_index, 1);
}

#[test]
fn schedule_runs_sample_by_sample() {
    let mut q: JobQueue<u32> = JobQueue::new();
    q.enqueue(job(2, 3));
    let rays: Vec<u32> = vec![10, 11, 12, 13];
    schedule_work(2, 1, 2, 5, &rays, &mut q, 7);
    assert_eq!(q.len(), 4);
    let expected = [(0usize, 0usize, 0usize, 10u32), (2, 0, 2, 12), (0, 1, 1, 11), (2, 1, 3, 13)];
    for (pixel_index, sample_index, ray_index, ray) in expected {
        let j = q.try_dequeue().unwrap();
        assert_eq!((j.pixel_index, j.sample_index, j.ray_index, j.ray), (pixel_index, sample_index, ray_index, ray));
        assert_eq!((j.bounce_index, j.max_bounces, j.generation), (0, 5, 7));
    }
}

#[test]
fn schedule_with_no_samples_is_empty() {
    let mut q: JobQueue<u32> = JobQueue::new();
    q.enqueue(job(0, 0));
    schedule_work(4, 4, 0, 1, &Vec::new(), &mut q, 1);
    assert!(q.is_empty());
}

#[test]
fn first_bounce_sets_and_later_bounces_multiply() {
    let mut agg = ResultAggregator::new(3, 2);
    assert!(agg.accept(&result(1, 0, 2, grey(32768))));
    assert_eq!(agg.accumulation[1], grey(32768));
    assert!(agg.accept(&result(1, 1, 2, grey(32768))));
    assert_eq!(agg.accumulation[1], grey(16384));
    assert!(agg.accept(&result(1, 0, 2, grey(100))));
    assert_eq!(agg.accumulation[1], grey(100));
    assert_eq!(agg.accumulation[0], Rgb::black());
}

#[test]
fn stale_and_out_of_range_results_are_dropped() {
    let mut agg = ResultAggregator::new(2, 5);
    assert!(!agg.accept(&result(0, 0, 4, Rgb::white())));
    assert!(!agg.accept(&result(7, 0, 5, Rgb::white())));
    assert_eq!(agg.accumulation, vec![Rgb::black(), Rgb::black()]);
}

#[test]
fn chain_accumulates_product_among_other_results() {
    let mut agg = ResultAggregator::new(2, 1);
    let results = vec![
        result(0, 0, 1, grey(CHANNEL_ONE)),
        result(1, 0, 1, grey(32768)),
        result(0, 1, 1, grey(32768)),
        result(1, 0, 0, grey(7)),
        result(0, 2, 1, grey(32768)),
    ];
    agg.accept_all(&results);
    assert_eq!(agg.accumulation[0], grey(16384));
    assert_eq!(agg.accumulation[1], grey(32768));
}

#[test]
fn pixel_colour_is_mean_of_samples() {
    let mut agg = ResultAggregator::new(4, 0);
    agg.accept(&result(2, 0, 0, grey(100)));
    agg.accept(&result(3, 0, 0, grey(301)));
    assert_eq!(agg.pixel_colour(1, 2), grey(200));
    assert_eq!(agg.pixel_colour(0, 2), Rgb::black());
    assert_eq!(agg.pixel_colour(0, 0), Rgb::black());
}

#[test]
fn frame_flips_rows_and_rounds_to_bytes() {
    let mut agg = ResultAggregator::new(2, 0);
    agg.accept(&result(0, 0, 0, Rgb::white()));
    agg.accept(&result(1, 0, 0, Rgb { r: 0, g: 52428, b: 257 }));
    let f = agg.frame(1, 2, 1);
    assert_eq!(f, vec![0, 204, 1, 255, 255, 255, 255, 255]);
}

#[test]
fn controller_camera_change_discards_stale_work() {
    let q = QualityPresetBank::get_default();
    let small = arrt::QualityPreset { name: "tiny".to_string(), image_width: 2, image_height: 1, samples_per_pixel: 1, max_bounces: 1 };
    assert!(SchedulerController::new(&q).is_some());
    let mut c = SchedulerController::new(&small).unwrap();
    assert_eq!(c.generation, 0);
    let mut queue: JobQueue<u32> = JobQueue::new();
    c.start(&vec![1, 2], &mut queue);
    assert_eq!(queue.len(), 2);
    c.accept_results(&vec![result(0, 0, 0, grey(500))]);
    assert_eq!(c.aggregator.accumulation[0], grey(500));
    c.on_camera_change(&vec![3, 4], &mut queue);
    assert_eq!(c.generation, 1);
    assert_eq!(c.aggregator.accumulation, vec![Rgb::black(), Rgb::black()]);
    let j = queue.try_dequeue().unwrap();
    assert_eq!((j.generation, j.ray), (1, 3));
    c.accept_results(&vec![result(0, 0, 0, grey(500)), result(1, 1, 0, grey(9))]);
    assert_eq!(c.aggregator.accumulation, vec![Rgb::black(), Rgb::black()]);
    assert_eq!(c.frame().len(), 8);
}

#[test]
fn controller_rejects_oversized_buffers() {
    let huge = arrt::QualityPreset { name: String::new(), image_width: u32::MAX, image_height: u32::MAX, samples_per_pixel: usize::MAX, max_bounces: 1 };
    assert!(SchedulerController::new(&huge).is_none());
}

#[test]
fn mirror_sphere_scene_without_bounces() {
    // One mirror sphere over a floor, no bounce budget: every job yields one
    // first-bounce result and nothing is re-enqueued.
    let s = settings(false);
    let small = arrt::QualityPreset { name: "tiny".to_string(), image_width: 3, image_height: 1, samples_per_pixel: 1, max_bounces: 0 };
    let c = SchedulerController::new(&small).unwrap();
    let mut queue: JobQueue<u32> = JobQueue::new();
    c.start(&vec![0, 1, 2], &mut queue);
    let scene = [hit("mirror"), hit("red"), SceneHit::Miss];
    let mut results = Vec::new();
    while let Some(j) = queue.try_dequeue() {
        let step = process_job(&s, &j, &scene[j.ray as usize], SIGNED_ONE);
        assert_eq!(step.bounce, None);
        results.push(step.result);
    }
    assert_eq!(results.len(), 3);
    assert!(results.iter().all(|r| r.bounce_index == 0));
    assert_eq!(results[0].colour, grey(52428));
    assert_eq!(results[1].colour, Rgb { r: CHANNEL_ONE, g: 0, b: 0 });
    assert_eq!(results[2].colour, Rgb { r: 32768, g: 45875, b: CHANNEL_ONE });
}
