use raytracer::plan::RenderPlan;

#[test]
fn plan_keeps_its_counts() {
    let p = RenderPlan::new(400, 225, 125, 4).unwrap();
    assert_eq!(p.width, 400);
    assert_eq!(p.height, 225);
    assert_eq!(p.pixel_count(), 90_000);
    assert_eq!(p.total_samples(), 500);
}

#[test]
fn zero_counts_are_refused() {
    assert_eq!(RenderPlan::new(0, 1, 1, 1), None);
    assert_eq!(RenderPlan::new(1, 0, 1, 1), None);
    assert_eq!(RenderPlan::new(1, 1, 0, 1), None);
    assert_eq!(RenderPlan::new(1, 1, 1, 0), None);
}

#[test]
fn overflowing_totals_are_refused() {
    assert_eq!(RenderPlan::new(usize::MAX, 2, 1, 1), None);
    assert_eq!(RenderPlan::new(1, 1, usize::MAX, 2), None);
    assert!(RenderPlan::new(usize::MAX, 1, usize::MAX, 1).is_some());
}

#[test]
fn output_starts_at_top_left_and_ends_at_bottom_right() {
    let p = RenderPlan::new(4, 3, 1, 1).unwrap();
    assert_eq!(p.cell_index(0, 2), 0);
    assert_eq!(p.cell_index(3, 0), 11);
    assert_eq!(p.cell_index(1, 1), 5);
    assert_eq!(p.pixel_at(0), (0, 2));
    assert_eq!(p.pixel_at(5), (1, 1));
    assert_eq!(p.pixel_at(11), (3, 0));
}

#[test]
fn every_pixel_is_written_once() {
    let p = RenderPlan::new(5, 3, 2, 3).unwrap();
    let mut seen = vec![false; p.pixel_count()];
    for k in 0..p.pixel_count() {
        let (i, j) = p.pixel_at(k);
        assert_eq!(p.cell_index(i, j), k);
        assert!(!seen[j * 5 + i]);
        seen[j * 5 + i] = true;
    }
    assert!(seen.iter().all(|s| *s));
}
