use raytracer::integrator::{after_query, start_step, PathStep};

#[test]
fn zero_depth_is_black_without_a_query() {
    assert_eq!(start_step(0), PathStep::Black);
}

#[test]
fn positive_depth_queries_the_scene() {
    assert_eq!(start_step(1), PathStep::Query);
    assert_eq!(start_step(50), PathStep::Query);
    assert_eq!(start_step(u32::MAX), PathStep::Query);
}

#[test]
fn miss_yields_background() {
    assert_eq!(after_query(5, false, false), PathStep::Background);
    assert_eq!(after_query(5, false, true), PathStep::Background);
}

#[test]
fn absorbed_yields_emission() {
    assert_eq!(after_query(3, true, false), PathStep::Emitted);
}

#[test]
fn scatter_spends_one_bounce() {
    assert_eq!(after_query(3, true, true), PathStep::Bounce { depth: 2 });
    assert_eq!(after_query(1, true, true), PathStep::Bounce { depth: 0 });
}

#[test]
fn bounce_chain_ends_within_depth() {
    let mut depth: u32 = 50;
    let mut bounces = 0;
    loop {
        match start_step(depth) {
            PathStep::Black => break,
            PathStep::Query => match after_query(depth, true, true) {
                PathStep::Bounce { depth: d } => {
                    depth = d;
                    bounces += 1;
                }
                other => panic!("unexpected {:?}", other),
            },
            other => panic!("unexpected {:?}", other),
        }
    }
    assert_eq!(bounces, 50);
}
