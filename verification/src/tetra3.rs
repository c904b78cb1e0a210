use vstd::prelude::*;

verus! {

/// Centralizes star extraction and plate solving, holding lazily created
/// solver (`S`), extractor (`E`) and fast extractor (`X`) instances so that
/// nothing is loaded or allocated before it is first needed.
pub struct Tetra3<S, E, X> {
    pub database_path: String,
    pub solver: Option<S>,
    pub extractor: Option<E>,
    pub fast_extractor: Option<X>,
}

impl<S, E, X> Tetra3<S, E, X> {
    /// An instance for the star database at `database_path`; the database
    /// is not loaded until the first solve.
    pub fn new(database_path: &str) -> (t: Self)
        ensures
            t.database_path@ == database_path@,
            t.solver is None,
            t.extractor is None,
            t.fast_extractor is None,
    {
        Tetra3 {
            database_path: String::from_str(database_path),
            solver: None,
            extractor: None,
            fast_extractor: None,
        }
    }

    /// `get_solver` on this instance, with `load`, handed out `handed` and
    /// left `after`. `handed` is `Ok((given, kept))` when a solver was handed
    /// out: `given` is the solver as handed out and `kept` the one left in
    /// place once the caller is done with it. A held solver is handed out;
    /// otherwise the solver is loaded from the database path with `load`,
    /// and a failed load is passed on with nothing kept.
    pub open spec fn lazy_solver<Er, L>(self, load: L, handed: Result<(S, S), Er>, after: Self) -> bool
        where
            L: FnOnce(&String) -> Result<S, Er>,
    {
        match handed {
            Ok((given, kept)) => after == (Tetra3 { solver: Some(kept), ..self }) && match self.solver {
                Some(held) => given == held,
                None => loaded(load, self.database_path, given),
            },
            Err(e) => self.solver is None && call_ensures(load, (&self.database_path,), Err::<S, Er>(e))
                && after == self,
        }
    }

    /// The solver, loaded from the database path with `load` on first use;
    /// see `lazy_solver`.
    pub fn get_solver<Er, L>(&mut self, load: L) -> (r: Result<&mut S, Er>)
        where
            L: FnOnce(&String) -> Result<S, Er>,
        requires
            old(self).solver is None ==> call_requires(load, (&old(self).database_path,)),
        ensures
            r matches Ok(sr) ==> old(self).lazy_solver(load, Ok::<(S, S), Er>((*sr, *final(sr))), *final(self)),
            r matches Err(e) ==> old(self).lazy_solver(load, Err::<(S, S), Er>(e), *final(self)),
    {
        if self.solver.is_none() {
            match load(&self.database_path) {
                Ok(s) => {
                    self.solver = Some(s);
                },
                Err(e) => {
                    return Err(e);
                },
            }
        }
        Ok(self.solver.as_mut().unwrap())
    }
}

impl<S, E, X> Tetra3<S, E, X> {
    /// The extractor, created with `make` on first use.
    pub fn get_extractor<M>(&mut self, make: M) -> (r: &mut E)
        where
            M: FnOnce() -> E,
        requires
            old(self).extractor is None ==> call_requires(make, ()),
        ensures
            old(self).extractor matches Some(e) ==> *r == e,
            old(self).extractor is None ==> call_ensures(make, (), *r),
            *final(self) == (Tetra3 { extractor: Some(*final(r)), ..*old(self) }),
    {
        if self.extractor.is_none() {
            self.extractor = Some(make());
        }
        self.extractor.as_mut().unwrap()
    }
}

/// Asked about the held fast extractor `x`, `built_for` reported it built
/// for a `w` × `h` image with options `o`; when those sizes are the ones
/// wanted, `same_options` compared `o` with the wanted `options` and
/// answered `same`.
pub open spec fn held_extractor_checked<X, F, B, C>(
    built_for: B,
    same_options: C,
    x: X,
    width: usize,
    height: usize,
    options: FastExtractOptions<F>,
    w: usize,
    h: usize,
    o: FastExtractOptions<F>,
    same: bool,
) -> bool
    where
        B: FnOnce(&X) -> (usize, usize, FastExtractOptions<F>),
        C: FnOnce(&FastExtractOptions<F>, &FastExtractOptions<F>) -> bool,
{
    &&& call_ensures(built_for, (&x,), (w, h, o))
    &&& (w == width && h == height ==> call_ensures(same_options, (&o, &options), same))
}

/// The fast extractor `ready` for a `width` × `height` image with
/// `options`: the held one when it was built for the same width, height and
/// options; otherwise, or when none is held, a new one built by `make`.
pub open spec fn fast_extractor_ready<X, F, B, C, M>(
    held: Option<X>,
    built_for: B,
    same_options: C,
    make: M,
    width: usize,
    height: usize,
    options: FastExtractOptions<F>,
    ready: X,
) -> bool
    where
        B: FnOnce(&X) -> (usize, usize, FastExtractOptions<F>),
        C: FnOnce(&FastExtractOptions<F>, &FastExtractOptions<F>) -> bool,
        M: FnOnce(usize, usize, FastExtractOptions<F>) -> X,
{
    match held {
        None => call_ensures(make, (width, height, options), ready),
        Some(x) => exists|w: usize, h: usize, o: FastExtractOptions<F>, same: bool|
            #[trigger] held_extractor_checked(
                built_for,
                same_options,
                x,
                width,
                height,
                options,
                w,
                h,
                o,
                same,
            ) && if w == width && h == height && same {
                ready == x
            } else {
                call_ensures(make, (width, height, options), ready)
            },
    }
}

/// The extractor `e` used for the next image: the held one, or a new one
/// made by `make` when none is held.
pub open spec fn extractor_ready<E, M: FnOnce() -> E>(held: Option<E>, make: M, e: E) -> bool {
    match held {
        Some(x) => e == x,
        None => call_ensures(make, (), e),
    }
}

/// `extract` ran the extractor `e` with `options`, leaving it as `after`,
/// and gave `result`.
pub open spec fn ran_extractor<E, F, A, I, XN>(
    extract: XN,
    e: E,
    options: ExtractOptions<F>,
    after: E,
    result: ExtractionResult<F, A, I>,
) -> bool
    where
        XN: FnOnce(E, ExtractOptions<F>) -> (E, ExtractionResult<F, A, I>),
{
    call_ensures(extract, (e, options), (after, result))
}

/// `extract_fast` ran the fast extractor `ready`, leaving it as `after`,
/// and found `fast`.
pub open spec fn ran_fast_extractor<X, F, A, XF>(
    extract_fast: XF,
    ready: X,
    after: X,
    fast: Vec<FastCentroidResult<F, A>>,
) -> bool
    where
        XF: FnOnce(X) -> (X, Vec<FastCentroidResult<F, A>>),
{
    call_ensures(extract_fast, (ready,), (after, fast))
}

impl<S, E, X> Tetra3<S, E, X> {
    /// Keeps the held fast extractor when it was built for this width,
    /// height and options, and builds a new one otherwise.
    fn refresh_fast_extractor<F, B, C, M>(
        &mut self,
        width: usize,
        height: usize,
        options: FastExtractOptions<F>,
        built_for: B,
        same_options: C,
        make: M,
    )
        where
            B: FnOnce(&X) -> (usize, usize, FastExtractOptions<F>),
            C: FnOnce(&FastExtractOptions<F>, &FastExtractOptions<F>) -> bool,
            M: FnOnce(usize, usize, FastExtractOptions<F>) -> X,
        requires
            old(self).fast_extractor matches Some(x) ==> call_requires(built_for, (&x,)),
            forall|o: FastExtractOptions<F>| call_requires(same_options, (&o, &options)),
            call_requires(make, (width, height, options)),
        ensures
            final(self).fast_extractor matches Some(ready) && fast_extractor_ready(
                old(self).fast_extractor,
                built_for,
                same_options,
                make,
                width,
                height,
                options,
                ready,
            ),
            *final(self) == (Tetra3 { fast_extractor: final(self).fast_extractor, ..*old(self) }),
    {
        match &self.fast_extractor {
            None => {
                self.fast_extractor = Some(make(width, height, options));
            },
            Some(fe) => {
                let (w, h, o) = built_for(fe);
                let same = if w == width && h == height {
                    same_options(&o, &options)
                } else {
                    false
                };
                proof {
                    assert(held_extractor_checked(
                        built_for,
                        same_options,
                        old(self).fast_extractor->0,
                        width,
                        height,
                        options,
                        w,
                        h,
                        o,
                        same,
                    ));
                }
                if !(w == width && h == height && same) {
                    self.fast_extractor = Some(make(width, height, options));
                }
            },
        }
    }

    /// The fast extractor for a `width` × `height` image with `options`:
    /// the one held is kept when `built_for` reports it built for the same
    /// width and height and `same_options` finds its options equal to
    /// `options`; otherwise, or when none is held, a new one is built with
    /// `make` and kept.
    pub fn prepare_fast_extractor<F, B, C, M>(
        &mut self,
        width: usize,
        height: usize,
        options: FastExtractOptions<F>,
        built_for: B,
        same_options: C,
        make: M,
    ) -> (r: &mut X)
        where
            B: FnOnce(&X) -> (usize, usize, FastExtractOptions<F>),
            C: FnOnce(&FastExtractOptions<F>, &FastExtractOptions<F>) -> bool,
            M: FnOnce(usize, usize, FastExtractOptions<F>) -> X,
        requires
            old(self).fast_extractor matches Some(x) ==> call_requires(built_for, (&x,)),
            forall|o: FastExtractOptions<F>| call_requires(same_options, (&o, &options)),
            call_requires(make, (width, height, options)),
        ensures
            fast_extractor_ready(
                old(self).fast_extractor,
                built_for,
                same_options,
                make,
                width,
                height,
                options,
                *r,
            ),
            *final(self) == (Tetra3 { fast_extractor: Some(*final(r)), ..*old(self) }),
    {
        self.refresh_fast_extractor(width, height, options, built_for, same_options, make);
        self.fast_extractor.as_mut().unwrap()
    }

    /// Extracts centroids with the standard extractor, made with `make` on
    /// first use: `extract` runs it with `options` and hands it back.
    pub fn get_centroids_from_image<F, A, I, ME, XN>(
        &mut self,
        options: ExtractOptions<F>,
        make: ME,
        extract: XN,
    ) -> (r: ExtractionResult<F, A, I>)
        where
            ME: FnOnce() -> E,
            XN: FnOnce(E, ExtractOptions<F>) -> (E, ExtractionResult<F, A, I>),
        requires
            old(self).extractor is None ==> call_requires(make, ()),
            forall|e: E| call_requires(extract, (e, options)),
        ensures
            final(self).extractor is Some,
            *final(self) == (Tetra3 { extractor: final(self).extractor, ..*old(self) }),
            exists|e: E|
                #[trigger] ran_extractor(extract, e, options, final(self).extractor->0, r)
                    && extractor_ready(old(self).extractor, make, e),
    {
        let e = match self.extractor.take() {
            Some(held) => held,
            None => make(),
        };
        let ghost before = e;
        let (e, r) = extract(e, options);
        self.extractor = Some(e);
        assert(ran_extractor(extract, before, options, self.extractor->0, r));
        r
    }

    /// Extracts centroids from a `width` × `height` image, on the fast
    /// extractor when the options allow it (`try_to_fast_options`): it is
    /// prepared as in `prepare_fast_extractor`, `extract_fast` runs it and
    /// hands it back, and the fast centroids become centroids with `zero`
    /// moments and no debug images. Otherwise the standard extractor runs as
    /// in `get_centroids_from_image`.
    pub fn get_centroids_from_image_fast<F: Copy, A: Copy, I, B, C, M, XF, ME, XN>(
        &mut self,
        width: usize,
        height: usize,
        options: ExtractOptions<F>,
        built_for: B,
        same_options: C,
        make: M,
        extract_fast: XF,
        make_extractor: ME,
        extract: XN,
        zero: F,
    ) -> (r: ExtractionResult<F, A, I>)
        where
            B: FnOnce(&X) -> (usize, usize, FastExtractOptions<F>),
            C: FnOnce(&FastExtractOptions<F>, &FastExtractOptions<F>) -> bool,
            M: FnOnce(usize, usize, FastExtractOptions<F>) -> X,
            XF: FnOnce(X) -> (X, Vec<FastCentroidResult<F, A>>),
            ME: FnOnce() -> E,
            XN: FnOnce(E, ExtractOptions<F>) -> (E, ExtractionResult<F, A, I>),
        requires
            modes_supported(options) ==> !(options.crop matches Some(Crop::Fraction(f)) && f == 0),
            fast_compatible(options, width, height) ==> {
                let fast_options = fast_options_for(options, width, height);
                &&& old(self).fast_extractor matches Some(x) ==> call_requires(built_for, (&x,))
                &&& forall|o: FastExtractOptions<F>|
                    call_requires(same_options, (&o, &fast_options))
                &&& call_requires(make, (width, height, fast_options))
                &&& forall|x: X| call_requires(extract_fast, (x,))
            },
            !fast_compatible(options, width, height) ==> {
                &&& old(self).extractor is None ==> call_requires(make_extractor, ())
                &&& forall|e: E| call_requires(extract, (e, options))
            },
        ensures
            fast_compatible(options, width, height) ==> {
                &&& final(self).fast_extractor is Some
                &&& *final(self) == (Tetra3 {
                    fast_extractor: final(self).fast_extractor,
                    ..*old(self)
                })
                &&& r.debug_images is None
                &&& exists|ready: X, fast: Vec<FastCentroidResult<F, A>>|
                    #[trigger] ran_fast_extractor(
                        extract_fast,
                        ready,
                        final(self).fast_extractor->0,
                        fast,
                    ) && fast_extractor_ready(
                        old(self).fast_extractor,
                        built_for,
                        same_options,
                        make,
                        width,
                        height,
                        fast_options_for(options, width, height),
                        ready,
                    ) && r.centroids@ == fast_centroids(fast@, zero)
            },
            !fast_compatible(options, width, height) ==> {
                &&& final(self).extractor is Some
                &&& *final(self) == (Tetra3 { extractor: final(self).extractor, ..*old(self) })
                &&& exists|e: E|
                    #[trigger] ran_extractor(extract, e, options, final(self).extractor->0, r)
                        && extractor_ready(old(self).extractor, make_extractor, e)
            },
    {
        match try_to_fast_options(&options, width, height) {
            Some(fast_options) => {
                self.refresh_fast_extractor(
                    width,
                    height,
                    fast_options,
                    built_for,
                    same_options,
                    make,
                );
                let fe = self.fast_extractor.take().unwrap();
                let ghost ready = fe;
                let (fe, fast) = extract_fast(fe);
                self.fast_extractor = Some(fe);
                let centroids = centroids_from_fast(&fast, zero);
                assert(ran_fast_extractor(extract_fast, ready, self.fast_extractor->0, fast));
                ExtractionResult { centroids, debug_images: None }
            },
            None => self.get_centroids_from_image(options, make_extractor, extract),
        }
    }
}

/// `load` read the database at `path` into `solver`.
pub open spec fn loaded<S, Er, L: FnOnce(&String) -> Result<S, Er>>(
    load: L,
    path: String,
    solver: S,
) -> bool {
    call_ensures(load, (&path,), Ok::<S, Er>(solver))
}

/// `solve` turned the solver `before` into `after` with result `res`.
pub open spec fn solve_step<S, R, Q: FnOnce(S) -> (S, R)>(
    solve: Q,
    before: S,
    after: S,
    res: R,
) -> bool {
    call_ensures(solve, (before,), (after, res))
}

impl<S, E, X> Tetra3<S, E, X> {
    /// Solves with the lazily loaded solver: `load` as in `get_solver`, then
    /// `solve`, which works on the solver and hands it back, updated. Only
    /// the solver changes.
    pub fn solve_from_centroids<Er, R, L, Q>(&mut self, load: L, solve: Q) -> (r: Result<R, Er>)
        where
            L: FnOnce(&String) -> Result<S, Er>,
            Q: FnOnce(S) -> (S, R),
        requires
            old(self).solver is None ==> call_requires(load, (&old(self).database_path,)),
            forall|s: S| call_requires(solve, (s,)),
        ensures
            *final(self) == (Tetra3 { solver: final(self).solver, ..*old(self) }),
            old(self).solver matches Some(held) ==> (r matches Ok(res) && final(self).solver matches Some(
                after,
            ) && solve_step(solve, held, after, res)),
            old(self).solver is None && r is Ok ==> final(self).solver is Some && exists|s: S|
                #![trigger loaded(load, old(self).database_path, s)]
                loaded(load, old(self).database_path, s) && solve_step(
                    solve,
                    s,
                    final(self).solver->0,
                    r->Ok_0,
                ),
            r matches Err(e) ==> old(self).solver is None && call_ensures(
                load,
                (&old(self).database_path,),
                Err::<S, Er>(e),
            ) && *final(self) == *old(self),
    {
        let solver = match self.solver.take() {
            Some(s) => s,
            None => match load(&self.database_path) {
                Ok(s) => s,
                Err(e) => {
                    return Err(e);
                },
            },
        };
        let ghost before = solver;
        let (solver, result) = solve(solver);
        self.solver = Some(solver);
        proof {
            assert(solve_step(solve, before, solver, result));
            if old(self).solver is None {
                assert(loaded(load, old(self).database_path, before));
            }
        }
        Ok(result)
    }
}

/// Background subtraction of the standard extractor.
#[derive(Debug, Clone, Copy, PartialEq, Eq, Structural)]
pub enum BgSubMode {
    LocalMedian,
    LocalMean,
    GlobalMedian,
    GlobalMean,
}

/// Noise estimate of the standard extractor.
#[derive(Debug, Clone, Copy, PartialEq, Eq, Structural)]
pub enum SigmaMode {
    LocalMedianAbs,
    LocalRootSquare,
    GlobalMedianAbs,
    GlobalRootSquare,
}

/// Image crop of the standard extractor.
#[derive(Debug, Clone, Copy, PartialEq, Eq, Structural)]
pub enum Crop {
    /// Keep the central 1/f of each dimension.
    Fraction(usize),
    /// Keep a central region of the given size.
    Center { height: usize, width: usize },
    /// Keep a region of the given size at an offset from the centre.
    Region { height: usize, width: usize, offset_y: isize, offset_x: isize },
}

/// Options of the standard extractor; `F` is the type of its thresholds.
#[derive(Debug, Clone, Copy, PartialEq)]
pub struct ExtractOptions<F> {
    pub sigma: F,
    pub image_th: Option<F>,
    pub crop: Option<Crop>,
    pub downsample: Option<usize>,
    pub sigma_mode: SigmaMode,
    pub bg_sub_mode: Option<BgSubMode>,
    pub binary_open: bool,
    pub centroid_window: Option<usize>,
    pub max_area: usize,
    pub min_area: usize,
    pub max_sum: Option<F>,
    pub min_sum: Option<F>,
    pub max_axis_ratio: Option<F>,
    pub max_returned: Option<usize>,
    pub return_images: bool,
}

/// A star centroid found by the standard extractor: position, brightness
/// sum, area, second moments and axis ratio (`F` the type of the measures,
/// `A` that of the area).
#[derive(Debug, Clone, Copy, PartialEq)]
pub struct CentroidResult<F, A> {
    pub y: F,
    pub x: F,
    pub sum: F,
    pub area: A,
    pub m2_xx: F,
    pub m2_yy: F,
    pub m2_xy: F,
    pub axis_ratio: F,
}

/// A star centroid found by the fast extractor, which gives no second
/// moments.
#[derive(Debug, Clone, Copy, PartialEq)]
pub struct FastCentroidResult<F, A> {
    pub y: F,
    pub x: F,
    pub sum: F,
    pub area: A,
    pub axis_ratio: F,
}

/// The centroids of one extraction, and its debug images (`I`) when they
/// were asked for.
#[derive(Debug, PartialEq)]
pub struct ExtractionResult<F, A, I> {
    pub centroids: Vec<CentroidResult<F, A>>,
    pub debug_images: Option<I>,
}

/// A fast centroid as a centroid, with `zero` second moments.
pub open spec fn centroid_from_fast<F, A>(c: FastCentroidResult<F, A>, zero: F) -> CentroidResult<F, A> {
    CentroidResult {
        y: c.y,
        x: c.x,
        sum: c.sum,
        area: c.area,
        m2_xx: zero,
        m2_yy: zero,
        m2_xy: zero,
        axis_ratio: c.axis_ratio,
    }
}

/// Fast centroids as centroids, in order.
pub open spec fn fast_centroids<F, A>(fast: Seq<FastCentroidResult<F, A>>, zero: F) -> Seq<
    CentroidResult<F, A>,
> {
    fast.map_values(|c: FastCentroidResult<F, A>| centroid_from_fast(c, zero))
}

/// The centroids of the fast extractor in the standard form, in the same
/// order, with `zero` second moments.
pub fn centroids_from_fast<F: Copy, A: Copy>(fast: &Vec<FastCentroidResult<F, A>>, zero: F) -> (r: Vec<
    CentroidResult<F, A>,
>)
    ensures
        r@ == fast_centroids(fast@, zero),
{
    let mut out: Vec<CentroidResult<F, A>> = Vec::new();
    let mut i: usize = 0;
    while i < fast.len()
        invariant
            i <= fast.len(),
            out@ == fast_centroids(fast@.subrange(0, i as int), zero),
        decreases fast.len() - i,
    {
        let c = &fast[i];
        out.push(
            CentroidResult {
                y: c.y,
                x: c.x,
                sum: c.sum,
                area: c.area,
                m2_xx: zero,
                m2_yy: zero,
                m2_xy: zero,
                axis_ratio: c.axis_ratio,
            },
        );
        proof {
            assert(fast@.subrange(0, i + 1) == fast@.subrange(0, i as int).push(fast@[i as int]));
        }
        i = i + 1;
    }
    proof {
        assert(fast@.subrange(0, fast@.len() as int) == fast@);
    }
    out
}

/// Downsampling of the fast extractor.
#[derive(Debug, Clone, Copy, PartialEq, Eq, Structural)]
pub enum FastDownsample {
    /// Full resolution.
    X1,
    X2,
    X4,
}

/// Background subtraction of the fast extractor.
#[derive(Debug, Clone, Copy, PartialEq, Eq, Structural)]
pub enum FastBgSubMode {
    GlobalMedian,
    GlobalMean,
    BlockMedian { block_size: usize },
}

/// Noise estimate of the fast extractor.
#[derive(Debug, Clone, Copy, PartialEq, Eq, Structural)]
pub enum FastSigmaMode {
    GlobalMedianAbs,
    GlobalRootSquare,
}

/// Options of the fast sequential extractor.
#[derive(Debug, Clone, Copy, PartialEq)]
pub struct FastExtractOptions<F> {
    pub sigma: F,
    pub downsample: FastDownsample,
    pub bg_sub_mode: Option<FastBgSubMode>,
    pub sigma_mode: FastSigmaMode,
    pub binary_open: bool,
    pub centroid_window: Option<usize>,
    pub max_area: usize,
    pub min_area: usize,
    pub max_sum: Option<F>,
    pub min_sum: Option<F>,
    pub max_axis_ratio: Option<F>,
    /// Crop to (width, height).
    pub crop: Option<(usize, usize)>,
}

/// The fast downsampling for a requested factor: 1 (or none), 2 or 4.
pub open spec fn fast_downsample(downsample: Option<usize>) -> Option<FastDownsample> {
    match downsample {
        None => Some(FastDownsample::X1),
        Some(f) => if f == 1 {
            Some(FastDownsample::X1)
        } else if f == 2 {
            Some(FastDownsample::X2)
        } else if f == 4 {
            Some(FastDownsample::X4)
        } else {
            None
        },
    }
}

/// The fast background mode: global modes carry over, local median becomes
/// a 32-pixel block median, local mean has no fast counterpart. The outer
/// `None` means unsupported.
pub open spec fn fast_bg_sub_mode(mode: Option<BgSubMode>) -> Option<Option<FastBgSubMode>> {
    match mode {
        None => Some(None),
        Some(BgSubMode::GlobalMedian) => Some(Some(FastBgSubMode::GlobalMedian)),
        Some(BgSubMode::GlobalMean) => Some(Some(FastBgSubMode::GlobalMean)),
        Some(BgSubMode::LocalMedian) => Some(Some(FastBgSubMode::BlockMedian { block_size: 32 })),
        Some(BgSubMode::LocalMean) => None,
    }
}

/// The fast noise estimate: only the global modes exist.
pub open spec fn fast_sigma_mode(mode: SigmaMode) -> Option<FastSigmaMode> {
    match mode {
        SigmaMode::GlobalMedianAbs => Some(FastSigmaMode::GlobalMedianAbs),
        SigmaMode::GlobalRootSquare => Some(FastSigmaMode::GlobalRootSquare),
        _ => None,
    }
}

/// The fast crop as (width, height): a central region keeps its size, a
/// fraction divides the image size, an offset region is unsupported (outer
/// `None`).
pub open spec fn fast_crop(crop: Option<Crop>, img_width: usize, img_height: usize) -> Option<
    Option<(usize, usize)>,
> {
    match crop {
        None => Some(None),
        Some(Crop::Center { height, width }) => Some(Some((width, height))),
        Some(Crop::Fraction(f)) => Some(Some(((img_width / f) as usize, (img_height / f) as usize))),
        Some(Crop::Region { .. }) => None,
    }
}

/// The fast-extractor options for standard options that it can run.
pub open spec fn fast_options_for<F>(options: ExtractOptions<F>, img_width: usize, img_height: usize) -> FastExtractOptions<F> {
    FastExtractOptions {
        sigma: options.sigma,
        downsample: fast_downsample(options.downsample)->0,
        bg_sub_mode: fast_bg_sub_mode(options.bg_sub_mode)->0,
        sigma_mode: fast_sigma_mode(options.sigma_mode)->0,
        binary_open: options.binary_open,
        centroid_window: options.centroid_window,
        max_area: options.max_area,
        min_area: options.min_area,
        max_sum: options.max_sum,
        min_sum: options.min_sum,
        max_axis_ratio: options.max_axis_ratio,
        crop: fast_crop(options.crop, img_width, img_height)->0,
    }
}

/// The option checks that come before the crop is mapped.
pub open spec fn modes_supported<F>(options: ExtractOptions<F>) -> bool {
    &&& fast_downsample(options.downsample) is Some
    &&& fast_bg_sub_mode(options.bg_sub_mode) is Some
    &&& fast_sigma_mode(options.sigma_mode) is Some
}

/// The options can run on the fast extractor.
pub open spec fn fast_compatible<F>(options: ExtractOptions<F>, img_width: usize, img_height: usize) -> bool {
    &&& modes_supported(options)
    &&& fast_crop(options.crop, img_width, img_height) is Some
    &&& options.max_returned is None
    &&& !options.return_images
    &&& options.image_th is None
}

/// Translates standard extraction options into fast-extractor options, or
/// `None` when they ask for something the fast extractor lacks (another
/// downsampling factor, local mean background, local noise estimates, an
/// offset crop, a result cap, debug images or a fixed threshold).
pub fn try_to_fast_options<F: Copy>(
    options: &ExtractOptions<F>,
    img_width: usize,
    img_height: usize,
) -> (r: Option<FastExtractOptions<F>>)
    requires
        modes_supported(*options) ==> !(options.crop matches Some(Crop::Fraction(f)) && f == 0),
    ensures
        r is Some <==> fast_compatible(*options, img_width, img_height),
        r matches Some(fast) ==> fast == fast_options_for(*options, img_width, img_height),
        r matches Some(fast) ==> {
            &&& options.bg_sub_mode == Some(BgSubMode::GlobalMedian) ==> fast.bg_sub_mode == Some(
                FastBgSubMode::GlobalMedian,
            )
            &&& options.bg_sub_mode == Some(BgSubMode::GlobalMean) ==> fast.bg_sub_mode == Some(
                FastBgSubMode::GlobalMean,
            )
            &&& options.bg_sub_mode == Some(BgSubMode::LocalMedian) ==> fast.bg_sub_mode == Some(
                FastBgSubMode::BlockMedian { block_size: 32 },
            )
            &&& options.bg_sub_mode is None ==> fast.bg_sub_mode is None
            &&& options.sigma_mode == SigmaMode::GlobalMedianAbs ==> fast.sigma_mode
                == FastSigmaMode::GlobalMedianAbs
            &&& options.sigma_mode == SigmaMode::GlobalRootSquare ==> fast.sigma_mode
                == FastSigmaMode::GlobalRootSquare
            &&& (options.downsample is None || options.downsample == Some(1usize))
                ==> fast.downsample == FastDownsample::X1
            &&& options.downsample == Some(2usize) ==> fast.downsample == FastDownsample::X2
            &&& options.downsample == Some(4usize) ==> fast.downsample == FastDownsample::X4
            &&& options.crop is None ==> fast.crop is None
            &&& options.crop matches Some(Crop::Center { height, width }) ==> fast.crop == Some(
                (width, height),
            )
            &&& options.crop matches Some(Crop::Fraction(f)) ==> fast.crop == Some(
                ((img_width / f) as usize, (img_height / f) as usize),
            )
            &&& fast.sigma == options.sigma
        },
        options.bg_sub_mode == Some(BgSubMode::LocalMean) ==> r is None,
        options.sigma_mode == SigmaMode::LocalMedianAbs ==> r is None,
        options.sigma_mode == SigmaMode::LocalRootSquare ==> r is None,
        options.crop matches Some(Crop::Region { .. }) ==> r is None,
        (options.downsample matches Some(f) && f != 1 && f != 2 && f != 4) ==> r is None,
{
    let ds = match options.downsample {
        None => FastDownsample::X1,
        Some(f) => {
            if f == 1 {
                FastDownsample::X1
            } else if f == 2 {
                FastDownsample::X2
            } else if f == 4 {
                FastDownsample::X4
            } else {
                return None;
            }
        },
    };
    let bg_mode = match options.bg_sub_mode {
        Some(BgSubMode::GlobalMedian) => Some(FastBgSubMode::GlobalMedian),
        Some(BgSubMode::GlobalMean) => Some(FastBgSubMode::GlobalMean),
        Some(BgSubMode::LocalMedian) => Some(FastBgSubMode::BlockMedian { block_size: 32 }),
        None => None,
        Some(BgSubMode::LocalMean) => {
            return None;
        },
    };
    let sigma_mode = match options.sigma_mode {
        SigmaMode::GlobalMedianAbs => FastSigmaMode::GlobalMedianAbs,
        SigmaMode::GlobalRootSquare => FastSigmaMode::GlobalRootSquare,
        _ => {
            return None;
        },
    };
    let crop = match options.crop {
        None => None,
        Some(Crop::Center { height, width }) => Some((width, height)),
        Some(Crop::Fraction(f)) => Some((img_width / f, img_height / f)),
        Some(Crop::Region { .. }) => {
            return None;
        },
    };
    if options.max_returned.is_some() {
        return None;
    }
    if options.return_images {
        return None;
    }
    if options.image_th.is_some() {
        return None;
    }
    Some(
        FastExtractOptions {
            sigma: options.sigma,
            downsample: ds,
            bg_sub_mode: bg_mode,
            sigma_mode,
            binary_open: options.binary_open,
            centroid_window: options.centroid_window,
            max_area: options.max_area,
            min_area: options.min_area,
            max_sum: options.max_sum,
            min_sum: options.min_sum,
            max_axis_ratio: options.max_axis_ratio,
            crop,
        },
    )
}

/// The solver is loaded at most once: a held solver is handed out without
/// loading, a successful load is kept and handed out by the next call
/// without loading again, and a failed load keeps nothing, so the next call
/// loads again.
pub proof fn lemma_solver_loaded_once<S, E, X, Er, L1, L2>(
    first: Tetra3<S, E, X>,
    load1: L1,
    handed1: Result<(S, S), Er>,
    mid: Tetra3<S, E, X>,
    load2: L2,
    handed2: Result<(S, S), Er>,
    last: Tetra3<S, E, X>,
) where
    L1: FnOnce(&String) -> Result<S, Er>,
    L2: FnOnce(&String) -> Result<S, Er>,
    requires
        first.lazy_solver(load1, handed1, mid),
        mid.lazy_solver(load2, handed2, last),
    ensures
        first.solver matches Some(held) ==> handed1 matches Ok((given, _)) && given == held,
        handed1 matches Ok((_, kept)) ==> (mid.solver == Some(kept) && (handed2 matches Ok(
            (given, _),
        ) && given == kept)),
        handed1 is Err ==> first.solver is None && mid == first && mid.solver is None,
        mid.database_path == first.database_path && last.database_path == first.database_path,
{
}

/// The fast extractor's modes for each standard mode: global median and
/// global mean background carry over, local median becomes a 32-pixel block
/// median and local mean has no fast counterpart; only the global noise
/// estimates exist; only the downsampling factors 1, 2 and 4 exist; a
/// central crop keeps its size, a fraction divides the image size and an
/// offset crop is unsupported.
pub proof fn lemma_fast_mode_mapping(f: usize, img_width: usize, img_height: usize, h: usize, w: usize, oy: isize, ox: isize)
    ensures
        fast_bg_sub_mode(Some(BgSubMode::GlobalMedian)) == Some(Some(FastBgSubMode::GlobalMedian)),
        fast_bg_sub_mode(Some(BgSubMode::GlobalMean)) == Some(Some(FastBgSubMode::GlobalMean)),
        fast_bg_sub_mode(Some(BgSubMode::LocalMedian)) == Some(
            Some(FastBgSubMode::BlockMedian { block_size: 32 }),
        ),
        fast_bg_sub_mode(Some(BgSubMode::LocalMean)) is None,
        fast_bg_sub_mode(None) == Some(None::<FastBgSubMode>),
        fast_sigma_mode(SigmaMode::GlobalMedianAbs) == Some(FastSigmaMode::GlobalMedianAbs),
        fast_sigma_mode(SigmaMode::GlobalRootSquare) == Some(FastSigmaMode::GlobalRootSquare),
        fast_sigma_mode(SigmaMode::LocalMedianAbs) is None,
        fast_sigma_mode(SigmaMode::LocalRootSquare) is None,
        fast_downsample(None) == Some(FastDownsample::X1),
        fast_downsample(Some(1)) == Some(FastDownsample::X1),
        fast_downsample(Some(2)) == Some(FastDownsample::X2),
        fast_downsample(Some(4)) == Some(FastDownsample::X4),
        f != 1 && f != 2 && f != 4 ==> fast_downsample(Some(f)) is None,
        fast_crop(None, img_width, img_height) == Some(None::<(usize, usize)>),
        fast_crop(Some(Crop::Center { height: h, width: w }), img_width, img_height) == Some(
            Some((w, h)),
        ),
        f > 0 ==> fast_crop(Some(Crop::Fraction(f)), img_width, img_height) == Some(
            Some(((img_width / f) as usize, (img_height / f) as usize)),
        ),
        fast_crop(
            Some(Crop::Region { height: h, width: w, offset_y: oy, offset_x: ox }),
            img_width,
            img_height,
        ) is None,
{
}

} // verus!
