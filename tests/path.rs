use raytracer::path::{Bounce, PathEnd, PathStep};

fn trace(max_depth: usize, bounces: &[Bounce]) -> (PathEnd, usize) {
    let mut step = PathStep::start(max_depth);
    let mut cast = 0;
    loop {
        match step {
            PathStep::Done { end } => return (end, cast),
            PathStep::Trace { .. } => {
                step = step.next(bounces[cast]);
                cast += 1;
            }
        }
    }
}

#[test]
fn zero_depth_is_black_without_casting() {
    let step = PathStep::start(0);
    assert_eq!(step, PathStep::Done { end: PathEnd::DepthExhausted });
    assert!(PathEnd::DepthExhausted.black());
    assert_eq!(trace(0, &[]), (PathEnd::DepthExhausted, 0));
}

#[test]
fn positive_depth_starts_tracing() {
    assert_eq!(PathStep::start(5), PathStep::Trace { depth_left: 5 });
}

#[test]
fn miss_escapes_to_sky() {
    let step = PathStep::start(3).next(Bounce::Missed);
    assert_eq!(step, PathStep::Done { end: PathEnd::Escaped });
    assert!(!PathEnd::Escaped.black());
}

#[test]
fn absorption_ends_black() {
    let step = PathStep::start(3).next(Bounce::Absorbed);
    assert_eq!(step, PathStep::Done { end: PathEnd::Absorbed });
    assert!(PathEnd::Absorbed.black());
}

#[test]
fn scatter_spends_one_level_of_depth() {
    assert_eq!(
        PathStep::start(3).next(Bounce::Scattered),
        PathStep::Trace { depth_left: 2 }
    );
    assert_eq!(
        PathStep::start(1).next(Bounce::Scattered),
        PathStep::Done { end: PathEnd::DepthExhausted }
    );
}

#[test]
fn path_casts_at_most_max_depth_rays() {
    let all_scatter = [Bounce::Scattered; 5];
    assert_eq!(trace(5, &all_scatter), (PathEnd::DepthExhausted, 5));
    let bounces = [Bounce::Scattered, Bounce::Scattered, Bounce::Missed, Bounce::Absorbed];
    assert_eq!(trace(4, &bounces), (PathEnd::Escaped, 3));
    assert_eq!(trace(2, &bounces), (PathEnd::DepthExhausted, 2));
}
