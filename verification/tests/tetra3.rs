use olive_solve::tetra3::{
    centroids_from_fast, try_to_fast_options, BgSubMode, CentroidResult, Crop, ExtractOptions,
    ExtractionResult, FastBgSubMode, FastCentroidResult, FastDownsample, FastExtractOptions,
    FastSigmaMode, SigmaMode, Tetra3,
};

#[test]
fn new_loads_nothing() {
    let t: Tetra3<u32, u8, u8> = Tetra3::new("db/default_database.npz");
    assert_eq!(t.database_path, "db/default_database.npz");
    assert!(t.solver.is_none() && t.extractor.is_none() && t.fast_extractor.is_none());
}

#[test]
fn solver_is_loaded_once() {
    let mut t: Tetra3<String, u8, u8> = Tetra3::new("stars.npz");
    let mut loads = 0;
    {
        let s = t
            .get_solver(|p: &String| -> Result<String, String> {
                loads += 1;
                Ok(format!("solver for {}", p))
            })
            .unwrap();
        assert_eq!(s, "solver for stars.npz");
        s.push('!');
    }
    let s = t
        .get_solver(|_p: &String| -> Result<String, String> {
            loads += 1;
            Ok("another".to_string())
        })
        .unwrap();
    assert_eq!(s, "solver for stars.npz!");
    assert_eq!(loads, 1);
}

#[test]
fn failed_load_leaves_solver_unset() {
    let mut t: Tetra3<u32, u8, u8> = Tetra3::new("missing.npz");
    let r = t.get_solver(|_p: &String| -> Result<u32, String> { Err("not found".to_string()) });
    assert_eq!(r.err(), Some("not found".to_string()));
    assert!(t.solver.is_none());
    assert_eq!(*t.get_solver(|_p: &String| -> Result<u32, String> { Ok(3) }).unwrap(), 3);
}

#[test]
fn extractor_is_created_once() {
    let mut t: Tetra3<u32, u32, u8> = Tetra3::new("x");
    *t.get_extractor(|| 1) += 10;
    assert_eq!(*t.get_extractor(|| 100), 11);
}

fn base() -> ExtractOptions<f32> {
    ExtractOptions {
        sigma: 2.0,
        image_th: None,
        crop: None,
        downsample: None,
        sigma_mode: SigmaMode::GlobalRootSquare,
        bg_sub_mode: Some(BgSubMode::LocalMedian),
        binary_open: true,
        centroid_window: None,
        max_area: 100,
        min_area: 5,
        max_sum: None,
        min_sum: Some(1.5),
        max_axis_ratio: Some(3.0),
        max_returned: None,
        return_images: false,
    }
}

#[test]
fn compatible_options_carry_over() {
    let fast = try_to_fast_options(&base(), 640, 480).expect("compatible");
    assert_eq!(fast.sigma, 2.0);
    assert_eq!(fast.downsample, FastDownsample::X1);
    assert_eq!(fast.bg_sub_mode, Some(FastBgSubMode::BlockMedian { block_size: 32 }));
    assert_eq!(fast.sigma_mode, FastSigmaMode::GlobalRootSquare);
    assert!(fast.binary_open);
    assert_eq!((fast.max_area, fast.min_area), (100, 5));
    assert_eq!((fast.max_sum, fast.min_sum, fast.max_axis_ratio), (None, Some(1.5), Some(3.0)));
    assert_eq!(fast.crop, None);
}

#[test]
fn downsampling_factors() {
    for (factor, expected) in [
        (Some(1), Some(FastDownsample::X1)),
        (Some(2), Some(FastDownsample::X2)),
        (Some(4), Some(FastDownsample::X4)),
        (Some(3), None),
        (Some(8), None),
    ] {
        let mut o = base();
        o.downsample = factor;
        assert_eq!(try_to_fast_options(&o, 10, 10).map(|f| f.downsample), expected);
    }
}

#[test]
fn background_and_noise_modes() {
    let mut o = base();
    o.bg_sub_mode = Some(BgSubMode::LocalMean);
    assert!(try_to_fast_options(&o, 10, 10).is_none());
    o.bg_sub_mode = None;
    assert_eq!(try_to_fast_options(&o, 10, 10).unwrap().bg_sub_mode, None);
    o.bg_sub_mode = Some(BgSubMode::GlobalMean);
    assert_eq!(try_to_fast_options(&o, 10, 10).unwrap().bg_sub_mode, Some(FastBgSubMode::GlobalMean));
    o.sigma_mode = SigmaMode::LocalMedianAbs;
    assert!(try_to_fast_options(&o, 10, 10).is_none());
    o.sigma_mode = SigmaMode::GlobalMedianAbs;
    assert_eq!(try_to_fast_options(&o, 10, 10).unwrap().sigma_mode, FastSigmaMode::GlobalMedianAbs);
}

#[test]
fn crops() {
    let mut o = base();
    o.crop = Some(Crop::Center { height: 100, width: 200 });
    assert_eq!(try_to_fast_options(&o, 640, 480).unwrap().crop, Some((200, 100)));
    o.crop = Some(Crop::Fraction(4));
    assert_eq!(try_to_fast_options(&o, 640, 480).unwrap().crop, Some((160, 120)));
    o.crop = Some(Crop::Region { height: 10, width: 10, offset_y: 5, offset_x: -5 });
    assert!(try_to_fast_options(&o, 640, 480).is_none());
}

#[test]
fn unsupported_requests() {
    let mut o = base();
    o.max_returned = Some(30);
    assert!(try_to_fast_options(&o, 10, 10).is_none());
    let mut o = base();
    o.return_images = true;
    assert!(try_to_fast_options(&o, 10, 10).is_none());
    let mut o = base();
    o.image_th = Some(12.0);
    assert!(try_to_fast_options(&o, 10, 10).is_none());
}

/// A fast extractor modelled by what it was built for.
type Fast = (usize, usize, FastExtractOptions<f32>);

#[test]
fn fast_extractor_is_rebuilt_only_when_it_does_not_fit() {
    let mut t: Tetra3<u32, u32, Fast> = Tetra3::new("x");
    let opts = try_to_fast_options(&base(), 640, 480).unwrap();
    let mut other = opts;
    other.sigma = 3.0;
    let mut builds = 0;
    let mut prepare = |t: &mut Tetra3<u32, u32, Fast>, w: usize, h: usize, o: FastExtractOptions<f32>| -> Fast {
        *t.prepare_fast_extractor(
            w,
            h,
            o,
            |fe: &Fast| *fe,
            |a: &FastExtractOptions<f32>, b: &FastExtractOptions<f32>| a == b,
            |w: usize, h: usize, o: FastExtractOptions<f32>| -> Fast {
                builds += 1;
                (w, h, o)
            },
        )
    };
    assert_eq!(prepare(&mut t, 640, 480, opts), (640, 480, opts));
    assert_eq!(prepare(&mut t, 640, 480, opts), (640, 480, opts));
    assert_eq!(prepare(&mut t, 320, 480, opts), (320, 480, opts));
    assert_eq!(prepare(&mut t, 320, 240, opts), (320, 240, opts));
    assert_eq!(prepare(&mut t, 320, 240, other), (320, 240, other));
    assert_eq!(prepare(&mut t, 320, 240, other), (320, 240, other));
    drop(prepare);
    assert_eq!(builds, 4);
    assert_eq!(t.fast_extractor, Some((320, 240, other)));
}

fn fast(y: f32, x: f32) -> FastCentroidResult<f32, usize> {
    FastCentroidResult { y, x, sum: 50.0, area: 9, axis_ratio: 1.25 }
}

fn centroid(y: f32, x: f32) -> CentroidResult<f32, usize> {
    CentroidResult { y, x, sum: 50.0, area: 9, m2_xx: 0.0, m2_yy: 0.0, m2_xy: 0.0, axis_ratio: 1.25 }
}

#[test]
fn fast_centroids_get_zero_moments() {
    assert_eq!(centroids_from_fast(&vec![fast(1.0, 2.0), fast(3.0, 4.0)], 0.0), vec![centroid(1.0, 2.0), centroid(3.0, 4.0)]);
    assert!(centroids_from_fast::<f32, usize>(&Vec::new(), 0.0).is_empty());
}

/// Runs `get_centroids_from_image_fast` on a 640 x 480 image with mock
/// extractors: the fast one counts its runs, the standard one (a counter
/// too) reports one centroid and a debug image.
fn extract_with(
    t: &mut Tetra3<u32, u32, Fast>,
    options: ExtractOptions<f32>,
) -> ExtractionResult<f32, usize, &'static str> {
    t.get_centroids_from_image_fast(
        640,
        480,
        options,
        |fe: &Fast| *fe,
        |a: &FastExtractOptions<f32>, b: &FastExtractOptions<f32>| a == b,
        |w: usize, h: usize, o: FastExtractOptions<f32>| -> Fast { (w, h, o) },
        |fe: Fast| -> (Fast, Vec<FastCentroidResult<f32, usize>>) { (fe, vec![fast(1.0, 2.0), fast(3.0, 4.0)]) },
        || -> u32 { 0 },
        |runs: u32, _o: ExtractOptions<f32>| -> (u32, ExtractionResult<f32, usize, &'static str>) {
            (runs + 1, ExtractionResult { centroids: vec![centroid(5.0, 6.0)], debug_images: Some("debug") })
        },
        0.0,
    )
}

#[test]
fn fast_path_maps_its_centroids() {
    let mut t: Tetra3<u32, u32, Fast> = Tetra3::new("x");
    let r = extract_with(&mut t, base());
    assert_eq!(r, ExtractionResult { centroids: vec![centroid(1.0, 2.0), centroid(3.0, 4.0)], debug_images: None });
    assert_eq!(t.fast_extractor, Some((640, 480, try_to_fast_options(&base(), 640, 480).unwrap())));
    assert!(t.extractor.is_none());
}

#[test]
fn incompatible_options_take_the_standard_path() {
    let mut t: Tetra3<u32, u32, Fast> = Tetra3::new("x");
    let mut o = base();
    o.max_returned = Some(10);
    let r = extract_with(&mut t, o);
    assert_eq!(r, ExtractionResult { centroids: vec![centroid(5.0, 6.0)], debug_images: Some("debug") });
    assert_eq!(t.extractor, Some(1));
    assert!(t.fast_extractor.is_none());
    extract_with(&mut t, o);
    assert_eq!(t.extractor, Some(2));
}

#[test]
fn standard_extractor_is_made_once() {
    let mut t: Tetra3<u32, u32, u8> = Tetra3::new("x");
    let run = |runs: u32, _o: ExtractOptions<f32>| -> (u32, ExtractionResult<f32, usize, ()>) {
        (runs + 1, ExtractionResult { centroids: Vec::new(), debug_images: None })
    };
    t.get_centroids_from_image(base(), || 10u32, run);
    t.get_centroids_from_image(base(), || 100u32, run);
    assert_eq!(t.extractor, Some(12));
}

#[test]
fn solving_loads_the_database_once() {
    // The solver is modelled by the number of solves it has run.
    let mut t: Tetra3<u32, u8, u8> = Tetra3::new("stars.npz");
    let mut loads = 0;
    let r = t.solve_from_centroids(
        |p: &String| -> Result<u32, String> {
            loads += 1;
            assert_eq!(p, "stars.npz");
            Ok(0)
        },
        |s: u32| (s + 1, "first"),
    );
    assert_eq!(r, Ok("first"));
    let r = t.solve_from_centroids(
        |_p: &String| -> Result<u32, String> {
            loads += 1;
            Ok(100)
        },
        |s: u32| (s + 1, s),
    );
    assert_eq!(r, Ok(1));
    assert_eq!(loads, 1);
    assert_eq!(t.solver, Some(2));
}

#[test]
fn solving_reports_a_failed_load() {
    let mut t: Tetra3<u32, u8, u8> = Tetra3::new("missing.npz");
    let r = t.solve_from_centroids(
        |_p: &String| -> Result<u32, String> { Err("Failed to load database".to_string()) },
        |s: u32| (s, ()),
    );
    assert_eq!(r, Err("Failed to load database".to_string()));
    assert!(t.solver.is_none());
}
