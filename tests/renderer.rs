use raytracer::{get_xy, light_indices, MaterialType, PathState, PixelRange, Renderer, VertexTerms};

fn assert_covers_once(ranges: &[PixelRange], len: usize) {
    let mut seen = vec![0u32; len];
    for r in ranges {
        assert!(r.start <= r.end);
        for p in r.start..r.end {
            seen[p] += 1;
        }
    }
    assert!(seen.iter().all(|&c| c == 1));
}

#[test]
fn get_xy_splits_index_by_row() {
    assert_eq!(get_xy(0, 4), (0, 0));
    assert_eq!(get_xy(3, 4), (3, 0));
    assert_eq!(get_xy(4, 4), (0, 1));
    assert_eq!(get_xy(11, 4), (3, 2));
}

#[test]
fn partition_deals_out_remainder_first() {
    let r = Renderer::partition(10, 3);
    assert_eq!(
        r,
        vec![
            PixelRange { start: 0, end: 4 },
            PixelRange { start: 4, end: 7 },
            PixelRange { start: 7, end: 10 },
        ]
    );
}

#[test]
fn partition_covers_every_pixel_once() {
    let len = 64 * 48;
    for workers in 1..=16 {
        let r = Renderer::partition(len, workers);
        assert_eq!(r.len(), workers);
        assert_covers_once(&r, len);
    }
}

#[test]
fn partition_with_more_workers_than_pixels() {
    let r = Renderer::partition(2, 5);
    assert_eq!(r.len(), 5);
    assert_eq!(r[0], PixelRange { start: 0, end: 1 });
    assert_eq!(r[1], PixelRange { start: 1, end: 2 });
    assert_eq!(r[4], PixelRange { start: 2, end: 2 });
    assert_covers_once(&r, 2);
}

#[test]
fn partition_of_empty_framebuffer() {
    let r = Renderer::partition(0, 3);
    assert!(r.iter().all(|p| p.start == 0 && p.end == 0));
}

#[test]
fn progress_reported_by_first_worker_every_fifth_sample() {
    assert!(Renderer::reports_progress(0, 0));
    assert!(Renderer::reports_progress(0, 10));
    assert!(!Renderer::reports_progress(0, 7));
    assert!(!Renderer::reports_progress(1, 5));
}

#[test]
fn specular_materials() {
    assert!(MaterialType::Mirror.is_specular());
    assert!(MaterialType::Transparent.is_specular());
    assert!(!MaterialType::Lambert.is_specular());
    assert!(!MaterialType::Uniform.is_specular());
    assert!(!MaterialType::Physical.is_specular());
}

#[test]
fn zero_budget_camera_ray_counts_emission_only() {
    let s = PathState::camera(0);
    for m in [MaterialType::Lambert, MaterialType::Mirror, MaterialType::Physical] {
        assert_eq!(
            s.terms(m),
            VertexTerms { emission: true, direct_light: false, continue_path: false }
        );
    }
}

#[test]
fn emission_not_counted_after_light_sampling() {
    let s = PathState::camera(3);
    let t = s.terms(MaterialType::Lambert);
    assert_eq!(t, VertexTerms { emission: true, direct_light: true, continue_path: true });
    let n = s.next(MaterialType::Lambert);
    assert_eq!(n, PathState { bounces_left: 2, lights_sampled: true });
    assert!(!n.terms(MaterialType::Lambert).emission);
}

#[test]
fn emission_counted_after_specular_bounce() {
    let s = PathState::camera(2);
    let t = s.terms(MaterialType::Mirror);
    assert!(!t.direct_light);
    let n = s.next(MaterialType::Mirror);
    assert!(n.terms(MaterialType::Lambert).emission);
}

#[test]
fn light_indices_lists_emitters_in_order() {
    assert_eq!(light_indices(&vec![false, true, false, true, true]), vec![1, 3, 4]);
    assert_eq!(light_indices(&vec![]), Vec::<usize>::new());
    assert_eq!(light_indices(&vec![false, false]), Vec::<usize>::new());
}

#[test]
fn partition_of_largest_framebuffer() {
    let r = Renderer::partition(usize::MAX, 4);
    assert_eq!(r.len(), 4);
    assert_eq!(r[0].start, 0);
    assert_eq!(r[3].end, usize::MAX);
    for k in 0..3 {
        assert_eq!(r[k].end, r[k + 1].start);
    }
    assert_eq!(r[0].end - r[0].start, usize::MAX / 4 + 1);
    assert_eq!(r[3].end - r[3].start, usize::MAX / 4);
}

#[test]
fn get_xy_at_largest_index() {
    assert_eq!(get_xy(u32::MAX, 1), (0, u32::MAX));
    assert_eq!(get_xy(u32::MAX, u32::MAX), (0, 1));
    assert_eq!(get_xy(u32::MAX - 1, u32::MAX), (u32::MAX - 1, 0));
}
