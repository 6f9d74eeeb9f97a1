use raytracing::path::{depth_after_scatter, step_after_search, Step, MAX_DEPTH};

#[test]
fn miss_shows_background_at_any_depth() {
    assert_eq!(step_after_search(0, MAX_DEPTH, false), Step::Background);
    assert_eq!(step_after_search(MAX_DEPTH, MAX_DEPTH, false), Step::Background);
}

#[test]
fn hit_below_limit_scatters() {
    assert_eq!(step_after_search(0, MAX_DEPTH, true), Step::Scatter);
    assert_eq!(step_after_search(MAX_DEPTH - 1, MAX_DEPTH, true), Step::Scatter);
}

#[test]
fn hit_at_limit_is_black() {
    assert_eq!(MAX_DEPTH, 50);
    assert_eq!(step_after_search(MAX_DEPTH, MAX_DEPTH, true), Step::Black);
    assert_eq!(step_after_search(1, 1, true), Step::Black);
}

#[test]
fn scattered_ray_goes_one_level_deeper() {
    assert_eq!(depth_after_scatter(0, MAX_DEPTH, true), Some(1));
    assert_eq!(depth_after_scatter(49, MAX_DEPTH, true), Some(50));
}

#[test]
fn absorbed_ray_ends_path() {
    assert_eq!(depth_after_scatter(3, MAX_DEPTH, false), None);
}

#[test]
fn always_scattering_path_stops_at_limit() {
    let mut depth = 0u32;
    let mut rays = 0u32;
    loop {
        rays += 1;
        match step_after_search(depth, MAX_DEPTH, true) {
            Step::Scatter => match depth_after_scatter(depth, MAX_DEPTH, true) {
                Some(d) => depth = d,
                None => break,
            },
            _ => break,
        }
    }
    assert_eq!(rays, MAX_DEPTH + 1);
    assert_eq!(depth, MAX_DEPTH);
}
