use vstd::prelude::*;

verus! {

/// The source of a celestial position estimate.
#[derive(Debug, Clone, Copy, PartialEq, Eq, Structural)]
pub enum PositionSource {
    /// Position derived directly from a successful plate solve.
    Solver,
    /// Position estimated by the IMU using the last known solver anchor.
    Imu,
    /// The last known good plate-solved anchor, kept after the solver
    /// failed and while the IMU cannot give a real-time estimate.
    SolverStale,
}

/// A celestial orientation: right ascension, declination and roll (in the
/// angle type `F`, degrees), its source and the time `T` it was valid at.
#[derive(Debug, Clone, Copy)]
pub struct Position<F, T> {
    pub ra: F,
    pub dec: F,
    pub roll: F,
    pub source: PositionSource,
    pub timestamp: T,
}

/// A user-supplied IMU device handed to the IMU tracker.
pub struct CustomImuWrapper<D>(pub D);

/// The IMU hardware to start, or to search for.
pub enum ImuType<D> {
    /// No IMU is to be used.
    Disabled,
    Auto,
    Bno085,
    Bmi160,
    Custom(D),
}

/// One IMU to probe on the I2C bus.
#[derive(Debug, Clone, Copy, PartialEq, Eq, Structural)]
pub enum ImuCandidate {
    Bno085 { report_interval_ms: u16, address: u8, use_calibrated: bool },
    Bmi160 { address: u8 },
}

/// What starting the IMU requires: probing the candidates in order and
/// starting the first one found (failing with `not_found` when none is), or
/// starting the supplied custom device.
enum ImuStartPlan<D> {
    Probe { candidates: Vec<ImuCandidate>, not_found: String },
    Custom(CustomImuWrapper<D>),
}

/// The BNO085 probes: primary then alternative address, 10 ms reports,
/// calibrated gyro.
pub open spec fn bno085_candidates() -> Seq<ImuCandidate> {
    seq![
        ImuCandidate::Bno085 { report_interval_ms: 10, address: 0x4A, use_calibrated: true },
        ImuCandidate::Bno085 { report_interval_ms: 10, address: 0x4B, use_calibrated: true },
    ]
}

/// The BMI160 probes: default then alternative address.
pub open spec fn bmi160_candidates() -> Seq<ImuCandidate> {
    seq![ImuCandidate::Bmi160 { address: 0x68 }, ImuCandidate::Bmi160 { address: 0x69 }]
}

/// The hardware probed, in order, when starting an IMU of type `t`.
pub open spec fn candidates_for<D>(t: ImuType<D>) -> Seq<ImuCandidate> {
    match t {
        ImuType::Auto => bno085_candidates() + bmi160_candidates(),
        ImuType::Bno085 => bno085_candidates(),
        ImuType::Bmi160 => bmi160_candidates(),
        _ => Seq::empty(),
    }
}

/// The error when no hardware of type `t` answers.
pub open spec fn not_found_for<D>(t: ImuType<D>) -> Seq<char> {
    match t {
        ImuType::Auto => "Auto mode could not find any supported IMU hardware."@,
        ImuType::Bno085 => "BNO085 hardware not found on I2C bus."@,
        ImuType::Bmi160 => "BMI160 hardware not found on I2C bus."@,
        _ => Seq::empty(),
    }
}

/// The device an IMU tracker is started on: hardware found by a probe, or
/// the user-supplied device.
pub enum ImuStartDevice<Dev, D> {
    Probed { candidate: ImuCandidate, device: Dev },
    Custom(CustomImuWrapper<D>),
}

/// Probing candidate `c` returned an error.
pub open spec fn probe_failed<Dev, P: Fn(ImuCandidate) -> Result<Dev, String>>(
    probe: P,
    c: ImuCandidate,
) -> bool {
    exists|e: String| #[trigger] call_ensures(probe, (c,), Err::<Dev, String>(e))
}

/// Probing returned an error for every candidate.
pub open spec fn all_probes_failed<Dev, P: Fn(ImuCandidate) -> Result<Dev, String>>(
    probe: P,
    candidates: Seq<ImuCandidate>,
) -> bool {
    forall|j: int| 0 <= j < candidates.len() ==> #[trigger] probe_failed(probe, candidates[j])
}

/// Candidate `i` is the first that probing found, as `device`, and starting
/// the tracker on it, with the calibration storage `storage`, gave `result`.
pub open spec fn started_on<
    Dev,
    D,
    St,
    I,
    P: Fn(ImuCandidate) -> Result<Dev, String>,
    G: FnOnce(ImuStartDevice<Dev, D>, &Option<St>) -> Result<I, String>,
>(
    probe: P,
    start: G,
    candidates: Seq<ImuCandidate>,
    storage: Option<St>,
    i: int,
    device: Dev,
    result: Result<I, String>,
) -> bool {
    &&& 0 <= i < candidates.len()
    &&& forall|j: int| 0 <= j < i ==> #[trigger] probe_failed(probe, candidates[j])
    &&& call_ensures(probe, (candidates[i],), Ok::<Dev, String>(device))
    &&& call_ensures(
        start,
        (ImuStartDevice::<Dev, D>::Probed { candidate: candidates[i], device }, &storage),
        result,
    )
}

/// What a plate solve reported, in the terms the fusion logic reads.
pub struct SolveReport<F> {
    pub matched: bool,
    pub ra: Option<F>,
    pub dec: Option<F>,
    pub roll: Option<F>,
    pub target_ra: Option<Vec<F>>,
    pub target_dec: Option<Vec<F>>,
}

impl<F> SolveReport<F> {
    /// A matched report whose target coordinates are both given has a
    /// first entry in each (only a matched report's targets are read).
    pub open spec fn targets_usable(self) -> bool {
        self.matched ==> match (self.target_ra, self.target_dec) {
            (Some(t_ra), Some(t_dec)) => t_ra@.len() > 0 && t_dec@.len() > 0,
            _ => true,
        }
    }

    /// The equatorial anchor of a solve: the first target pixel's RA/Dec
    /// when target coordinates are given, the field centre otherwise, with
    /// `zero` for what is missing.
    pub open spec fn anchor_coordinates(self, zero: F) -> (F, F, F) {
        let roll = match self.roll {
            Some(r) => r,
            None => zero,
        };
        match (self.target_ra, self.target_dec) {
            (Some(t_ra), Some(t_dec)) => (t_ra@[0], t_dec@[0], roll),
            _ => (
                match self.ra {
                    Some(r) => r,
                    None => zero,
                },
                match self.dec {
                    Some(d) => d,
                    None => zero,
                },
                roll,
            ),
        }
    }
}

/// One step of a calibration reset on the IMU.
#[derive(Debug, Clone, Copy, PartialEq, Eq, Structural)]
pub enum CalibrationStep {
    /// Delete the calibration kept in storage.
    ClearStored,
    /// Reset the gyro bias estimate.
    ResetBias,
}

/// The equatorial pose and observer location to convert into the IMU's
/// horizontal frame and hand to it as the new anchor.
pub struct MountAnchor<F> {
    pub ra: F,
    pub dec: F,
    pub roll: F,
    pub latitude: F,
    pub longitude: F,
}

/// The result of a solve run through the fusion logic.
pub struct SolveOutcome<S, F> {
    pub solution: S,
    pub report: SolveReport<F>,
    /// The anchor to send to the IMU, when it is tracking.
    pub anchor: Option<MountAnchor<F>>,
}

/// A real-time pointing estimate from the IMU, already converted back to
/// equatorial coordinates.
pub struct LiveEstimate<F> {
    pub ra: F,
    pub dec: F,
    pub roll: F,
    /// The IMU integrated motion since the anchor.
    pub is_imu_estimate: bool,
    /// The IMU considers itself calibrated (only read when the solver
    /// failed and the estimate is the anchor itself).
    pub imu_calibrated: bool,
}

/// The source of a position taken from the tracking IMU.
pub open spec fn live_source(is_imu_estimate: bool, last_solve_failed: bool, imu_calibrated: bool) -> PositionSource {
    if is_imu_estimate {
        PositionSource::Imu
    } else if !last_solve_failed {
        PositionSource::Solver
    } else if imu_calibrated {
        PositionSource::Imu
    } else {
        PositionSource::SolverStale
    }
}

/// The state that coordinates plate solving with IMU tracking: whether the
/// solver database is loaded, whether the IMU runs and which one to start,
/// the last solved position, whether the last solve failed, and the
/// observer location needed to map between equatorial and horizontal frames.
pub struct FusedSolver<F, T, D, St> {
    pub solver_ready: bool,
    pub imu_running: bool,
    pub imu_type: ImuType<D>,
    pub latest_solve_position: Option<Position<F, T>>,
    pub last_solve_failed: bool,
    pub latitude: Option<F>,
    pub longitude: Option<F>,
    /// Where the IMU keeps its calibration, handed to it when it starts.
    pub storage: Option<St>,
}

impl<F: Copy, T: Copy, D, St> FusedSolver<F, T, D, St> {
    /// Both observer coordinates are known.
    pub open spec fn location_set(self) -> bool {
        self.latitude is Some && self.longitude is Some
    }

    /// The IMU runs and can be mapped to the sky.
    pub open spec fn tracking(self) -> bool {
        self.imu_running && self.location_set()
    }

    /// The message with which starting the IMU is refused, if it is.
    pub open spec fn start_refusal(self) -> Option<Seq<char>> {
        if !self.location_set() {
            Some("Observer location must be set before starting the IMU."@)
        } else if self.imu_running {
            Some("IMU is already running."@)
        } else if self.imu_type is Disabled {
            Some("Cannot start IMU because ImuType is None."@)
        } else {
            None
        }
    }

    /// The state once the IMU has been started.
    pub open spec fn with_imu_started(self) -> Self {
        FusedSolver { imu_running: true, ..self }
    }

    /// The state once the IMU has been stopped.
    pub open spec fn with_imu_stopped(self) -> Self {
        FusedSolver { imu_running: false, ..self }
    }

    /// The state after a solve reported `report` at `time`.
    pub open spec fn after_solution(self, report: SolveReport<F>, time: T, zero: F) -> Self {
        if report.matched {
            let (ra, dec, roll) = report.anchor_coordinates(zero);
            FusedSolver {
                last_solve_failed: false,
                latest_solve_position: Some(
                    Position { ra, dec, roll, source: PositionSource::Solver, timestamp: time },
                ),
                ..self
            }
        } else {
            FusedSolver { last_solve_failed: true, ..self }
        }
    }

    /// The IMU anchor update that a solve reporting `report` calls for.
    pub open spec fn anchor_for(self, report: SolveReport<F>, zero: F) -> Option<MountAnchor<F>> {
        if report.matched && self.tracking() {
            let (ra, dec, roll) = report.anchor_coordinates(zero);
            Some(
                MountAnchor {
                    ra,
                    dec,
                    roll,
                    latitude: self.latitude->0,
                    longitude: self.longitude->0,
                },
            )
        } else {
            None
        }
    }

    /// The last solved position, marked stale when the latest solve failed.
    pub open spec fn fallback_position(self) -> Option<Position<F, T>> {
        match self.latest_solve_position {
            None => None,
            Some(p) => Some(
                if self.last_solve_failed {
                    Position { source: PositionSource::SolverStale, ..p }
                } else {
                    p
                },
            ),
        }
    }

    /// The position reported given an optional live IMU estimate at `now`.
    pub open spec fn latest_position(self, live: Option<LiveEstimate<F>>, now: T) -> Option<
        Position<F, T>,
    > {
        match live {
            Some(est) => if self.tracking() {
                Some(
                    Position {
                        ra: est.ra,
                        dec: est.dec,
                        roll: est.roll,
                        source: live_source(
                            est.is_imu_estimate,
                            self.last_solve_failed,
                            est.imu_calibrated,
                        ),
                        timestamp: now,
                    },
                )
            } else {
                self.fallback_position()
            },
            None => self.fallback_position(),
        }
    }

    /// Starting the IMU from this state, probing with `probe` and starting
    /// the tracker with `start`, may return `r` and leave `after`. A refused
    /// start changes nothing. A custom device is handed to `start` with the
    /// calibration storage, and `ImuType::Disabled` is left behind whatever
    /// `start` gives. Otherwise the IMU runs exactly when the tracker
    /// started on the first candidate that probing found; when none is
    /// found the type's not-found error is returned.
    pub open spec fn start_outcome<Dev, I, P, G>(
        self,
        probe: P,
        start: G,
        r: Result<I, String>,
        after: Self,
    ) -> bool
        where
            P: Fn(ImuCandidate) -> Result<Dev, String>,
            G: FnOnce(ImuStartDevice<Dev, D>, &Option<St>) -> Result<I, String>,
    {
        match self.start_refusal() {
            Some(msg) => r matches Err(e) && e@ == msg && after == self,
            None => match self.imu_type {
                ImuType::Custom(d) => call_ensures(
                    start,
                    (ImuStartDevice::<Dev, D>::Custom(CustomImuWrapper(d)), &self.storage),
                    r,
                ) && after == (FusedSolver {
                    imu_type: ImuType::Disabled,
                    imu_running: r is Ok,
                    ..self
                }),
                _ => match r {
                    Ok(inst) => after == self.with_imu_started() && exists|i: int, dev: Dev|
                        #[trigger] started_on(
                            probe,
                            start,
                            candidates_for(self.imu_type),
                            self.storage,
                            i,
                            dev,
                            Ok::<I, String>(inst),
                        ),
                    Err(e) => after == self && ((all_probes_failed(
                        probe,
                        candidates_for(self.imu_type),
                    ) && e@ == not_found_for(self.imu_type)) || exists|i: int, dev: Dev|
                        #[trigger] started_on(
                            probe,
                            start,
                            candidates_for(self.imu_type),
                            self.storage,
                            i,
                            dev,
                            Err::<I, String>(e),
                        )),
                },
            },
        }
    }

    /// A solver over the star database whose loading ended in `database`
    /// (its error given by its debug text): a failed load is reported as
    /// "Failed to load database: <error>"; otherwise the solver is ready,
    /// with the given IMU type (Auto when none is given) and storage, no IMU
    /// running, no position yet and no location.
    pub fn new(database: Result<(), String>, imu_type: Option<ImuType<D>>, storage: Option<St>) -> (r:
        Result<Self, String>)
        ensures
            database matches Err(e) ==> (r matches Err(msg) && msg@ == "Failed to load database: "@
                + e@),
            database is Ok ==> (r matches Ok(solver) && solver == (FusedSolver::<F, T, D, St> {
                solver_ready: true,
                imu_running: false,
                imu_type: match imu_type {
                    Some(t) => t,
                    None => ImuType::Auto,
                },
                latest_solve_position: None,
                last_solve_failed: false,
                latitude: None,
                longitude: None,
                storage,
            })),
    {
        if let Err(e) = database {
            let mut msg = String::from_str("Failed to load database: ");
            msg.append(e.as_str());
            return Err(msg);
        }
        let imu_type = match imu_type {
            Some(t) => t,
            None => ImuType::Auto,
        };
        Ok(
            FusedSolver {
                solver_ready: true,
                imu_running: false,
                imu_type,
                latest_solve_position: None,
                last_solve_failed: false,
                latitude: None,
                longitude: None,
                storage,
            },
        )
    }

    /// Sets the observer location needed before the IMU can be mapped.
    pub fn set_observer_location(&mut self, lat: F, lon: F)
        ensures
            *final(self) == (FusedSolver { latitude: Some(lat), longitude: Some(lon), ..*old(self) }),
    {
        self.latitude = Some(lat);
        self.longitude = Some(lon);
    }

    /// Decides how to start the IMU. It is refused without an observer
    /// location, while an IMU runs, and for `ImuType::Disabled`; otherwise the
    /// plan lists the hardware to probe in order (BNO085 then BMI160 for
    /// Auto), or hands over the custom device, which leaves `ImuType::Disabled`
    /// behind.
    fn plan_imu_start(&mut self) -> (r: Result<ImuStartPlan<D>, String>)
        ensures
            old(self).start_refusal() matches Some(msg) ==> (r matches Err(e) && e@ == msg)
                && *final(self) == *old(self),
            old(self).start_refusal() is None ==> match old(self).imu_type {
                ImuType::Custom(d) => r matches Ok(ImuStartPlan::Custom(w)) && w.0 == d
                    && *final(self) == (FusedSolver { imu_type: ImuType::Disabled, ..*old(self) }),
                ImuType::Auto => r matches Ok(ImuStartPlan::Probe { candidates, not_found })
                    && candidates@ == bno085_candidates() + bmi160_candidates() && not_found@
                    == "Auto mode could not find any supported IMU hardware."@ && *final(self)
                    == *old(self),
                ImuType::Bno085 => r matches Ok(ImuStartPlan::Probe { candidates, not_found })
                    && candidates@ == bno085_candidates() && not_found@
                    == "BNO085 hardware not found on I2C bus."@ && *final(self) == *old(self),
                ImuType::Bmi160 => r matches Ok(ImuStartPlan::Probe { candidates, not_found })
                    && candidates@ == bmi160_candidates() && not_found@
                    == "BMI160 hardware not found on I2C bus."@ && *final(self) == *old(self),
                ImuType::Disabled => false,
            },
    {
        if self.latitude.is_none() || self.longitude.is_none() {
            return Err(String::from_str("Observer location must be set before starting the IMU."));
        }
        if self.imu_running {
            return Err(String::from_str("IMU is already running."));
        }
        let mut candidates: Vec<ImuCandidate> = Vec::new();
        let bno_primary = ImuCandidate::Bno085 {
            report_interval_ms: 10,
            address: 0x4A,
            use_calibrated: true,
        };
        let bno_alternative = ImuCandidate::Bno085 {
            report_interval_ms: 10,
            address: 0x4B,
            use_calibrated: true,
        };
        let bmi_default = ImuCandidate::Bmi160 { address: 0x68 };
        let bmi_alternative = ImuCandidate::Bmi160 { address: 0x69 };
        match &self.imu_type {
            ImuType::Disabled => {
                return Err(String::from_str("Cannot start IMU because ImuType is None."));
            },
            ImuType::Auto => {
                candidates.push(bno_primary);
                candidates.push(bno_alternative);
                candidates.push(bmi_default);
                candidates.push(bmi_alternative);
                proof {
                    assert(candidates@ == bno085_candidates() + bmi160_candidates());
                }
                return Ok(
                    ImuStartPlan::Probe {
                        candidates,
                        not_found: String::from_str(
                            "Auto mode could not find any supported IMU hardware.",
                        ),
                    },
                );
            },
            ImuType::Bno085 => {
                candidates.push(bno_primary);
                candidates.push(bno_alternative);
                proof {
                    assert(candidates@ == bno085_candidates());
                }
                return Ok(
                    ImuStartPlan::Probe {
                        candidates,
                        not_found: String::from_str("BNO085 hardware not found on I2C bus."),
                    },
                );
            },
            ImuType::Bmi160 => {
                candidates.push(bmi_default);
                candidates.push(bmi_alternative);
                proof {
                    assert(candidates@ == bmi160_candidates());
                }
                return Ok(
                    ImuStartPlan::Probe {
                        candidates,
                        not_found: String::from_str("BMI160 hardware not found on I2C bus."),
                    },
                );
            },
            ImuType::Custom(_) => {},
        }
        let mut taken = ImuType::Disabled;
        std::mem::swap(&mut self.imu_type, &mut taken);
        match taken {
            ImuType::Custom(device) => Ok(ImuStartPlan::Custom(CustomImuWrapper(device))),
            _ => Err(String::from_str("Failed to start IMU.")),
        }
    }

    /// Starts the IMU. It is refused without an observer location, while an
    /// IMU runs, and for `ImuType::Disabled`. A custom device is handed to
    /// `start` (and `ImuType::Disabled` left behind). Otherwise the
    /// candidates of the type are probed in order and `start` is called on
    /// the first one found; when none is found the type's not-found error is
    /// returned. `start` also receives the calibration storage. The IMU
    /// counts as running exactly when `start` succeeded, and its result is
    /// returned; see `start_outcome`.
    pub fn start_imu<Dev, I, P, G>(&mut self, probe: P, start: G) -> (r: Result<I, String>)
        where
            P: Fn(ImuCandidate) -> Result<Dev, String>,
            G: FnOnce(ImuStartDevice<Dev, D>, &Option<St>) -> Result<I, String>,
        requires
            forall|c: ImuCandidate| call_requires(probe, (c,)),
            forall|dev: ImuStartDevice<Dev, D>| call_requires(start, (dev, &old(self).storage)),
        ensures
            old(self).start_outcome(probe, start, r, *final(self)),
    {
        match self.plan_imu_start() {
            Err(e) => Err(e),
            Ok(ImuStartPlan::Custom(w)) => {
                let r = start(ImuStartDevice::Custom(w), &self.storage);
                if r.is_ok() {
                    self.imu_running = true;
                }
                r
            },
            Ok(ImuStartPlan::Probe { candidates, not_found }) => {
                let mut i: usize = 0;
                while i < candidates.len()
                    invariant
                        i <= candidates.len(),
                        forall|c: ImuCandidate| call_requires(probe, (c,)),
                        forall|dev: ImuStartDevice<Dev, D>| call_requires(start, (dev, &old(self).storage)),
                        *self == *old(self),
                        old(self).start_refusal() is None,
                        candidates@ == candidates_for(old(self).imu_type),
                        not_found@ == not_found_for(old(self).imu_type),
                        forall|j: int| 0 <= j < i ==> #[trigger] probe_failed(probe, candidates@[j]),
                    decreases candidates.len() - i,
                {
                    let c = candidates[i];
                    match probe(c) {
                        Ok(device) => {
                            let ghost found = device;
                            let r = start(ImuStartDevice::Probed { candidate: c, device }, &self.storage);
                            proof {
                                let cands = candidates_for(old(self).imu_type);
                                if r is Ok {
                                    assert(started_on(probe, start, cands, self.storage, i as int, found, Ok::<I, String>(r->Ok_0)));
                                } else {
                                    assert(started_on(probe, start, cands, self.storage, i as int, found, Err::<I, String>(r->Err_0)));
                                }
                            }
                            if r.is_ok() {
                                self.imu_running = true;
                            }
                            return r;
                        },
                        Err(e) => {
                            proof {
                                assert(probe_failed(probe, candidates@[i as int]));
                            }
                        },
                    }
                    i = i + 1;
                }
                Err(not_found)
            },
        }
    }

    /// Stops the IMU; safe to call when it does not run.
    pub fn stop_imu(&mut self) -> (r: Result<(), String>)
        ensures
            r is Ok,
            *final(self) == old(self).with_imu_stopped(),
    {
        self.imu_running = false;
        Ok(())
    }

    /// The calibration reset to perform on the IMU, in order: on a running
    /// IMU the stored calibration is cleared and then the gyro bias is
    /// reset, each once; without a running IMU nothing is done.
    pub fn reset_calibration(&self) -> (steps: Vec<CalibrationStep>)
        ensures
            steps@ == (if self.imu_running {
                seq![CalibrationStep::ClearStored, CalibrationStep::ResetBias]
            } else {
                Seq::<CalibrationStep>::empty()
            }),
    {
        let mut steps: Vec<CalibrationStep> = Vec::new();
        if self.imu_running {
            steps.push(CalibrationStep::ClearStored);
            steps.push(CalibrationStep::ResetBias);
        }
        steps
    }

    /// The IMU's calibration metrics, read with `read` only while it runs.
    pub fn get_calibration_status<M, Q>(&self, read: Q) -> (r: Option<M>)
        where
            Q: FnOnce() -> Option<M>,
        requires
            self.imu_running ==> call_requires(read, ()),
        ensures
            !self.imu_running ==> r is None,
            self.imu_running ==> call_ensures(read, (), r),
    {
        if self.imu_running {
            read()
        } else {
            None
        }
    }

    /// The IMU's motion state, read with `read` only while it runs.
    pub fn get_motion_state<M, Q>(&self, read: Q) -> (r: Option<M>)
        where
            Q: FnOnce() -> M,
        requires
            self.imu_running ==> call_requires(read, ()),
        ensures
            !self.imu_running ==> r is None,
            self.imu_running ==> (r matches Some(m) && call_ensures(read, (), m)),
    {
        if self.imu_running {
            Some(read())
        } else {
            None
        }
    }

    /// The observer location while the IMU tracks, which is when its
    /// estimate is converted and used.
    pub fn tracking_location(&self) -> (r: Option<(F, F)>)
        ensures
            r == (if self.tracking() {
                Some((self.latitude->0, self.longitude->0))
            } else {
                None
            }),
    {
        if self.imu_running {
            match (self.latitude, self.longitude) {
                (Some(lat), Some(lon)) => Some((lat, lon)),
                _ => None,
            }
        } else {
            None
        }
    }

    /// The anchor coordinates of a solve report.
    fn anchor_coordinates(report: &SolveReport<F>, zero: F) -> (c: (F, F, F))
        requires
            report.matched,
            report.targets_usable(),
        ensures
            c == report.anchor_coordinates(zero),
    {
        let roll = match report.roll {
            Some(r) => r,
            None => zero,
        };
        match (&report.target_ra, &report.target_dec) {
            (Some(t_ra), Some(t_dec)) => (t_ra[0], t_dec[0], roll),
            _ => {
                let ra = match report.ra {
                    Some(r) => r,
                    None => zero,
                };
                let dec = match report.dec {
                    Some(d) => d,
                    None => zero,
                };
                (ra, dec, roll)
            },
        }
    }

    /// Books a solve: a match clears the failure flag, becomes the latest
    /// position (source Solver) and, while the IMU tracks, its new anchor;
    /// anything else sets the failure flag.
    fn record_solution(&mut self, report: &SolveReport<F>, time: T, zero: F) -> (anchor: Option<
        MountAnchor<F>,
    >)
        requires
            report.targets_usable(),
        ensures
            *final(self) == old(self).after_solution(*report, time, zero),
            anchor == old(self).anchor_for(*report, zero),
    {
        if report.matched {
            let (ra, dec, roll) = Self::anchor_coordinates(report, zero);
            self.last_solve_failed = false;
            let anchor = match (self.imu_running, self.latitude, self.longitude) {
                (true, Some(latitude), Some(longitude)) => Some(
                    MountAnchor { ra, dec, roll, latitude, longitude },
                ),
                _ => None,
            };
            self.latest_solve_position = Some(
                Position { ra, dec, roll, source: PositionSource::Solver, timestamp: time },
            );
            anchor
        } else {
            self.last_solve_failed = true;
            None
        }
    }

    /// Solves with `solve` (not called when the solver is not loaded) and
    /// books the result; see `after_solution` and `anchor_for`. `zero` fills
    /// coordinates the solve does not give.
    pub fn solve_from_centroids<S, G>(&mut self, solve: G, time: T, zero: F) -> (r: Result<
        SolveOutcome<S, F>,
        String,
    >)
        where
            G: FnOnce() -> (S, SolveReport<F>),
        requires
            old(self).solver_ready ==> call_requires(solve, ()),
            forall|s: S, rep: SolveReport<F>| #[trigger]
                call_ensures(solve, (), (s, rep)) ==> rep.targets_usable(),
        ensures
            !old(self).solver_ready ==> (r matches Err(e) && e@ == "Solver is not initialized."@)
                && *final(self) == *old(self),
            old(self).solver_ready ==> (r matches Ok(o) && call_ensures(
                solve,
                (),
                (o.solution, o.report),
            ) && *final(self) == old(self).after_solution(o.report, time, zero) && o.anchor
                == old(self).anchor_for(o.report, zero)),
    {
        if !self.solver_ready {
            return Err(String::from_str("Solver is not initialized."));
        }
        let (solution, report) = solve();
        let anchor = self.record_solution(&report, time, zero);
        Ok(SolveOutcome { solution, report, anchor })
    }

    /// Books an image solve: a failed extraction sets the failure flag and
    /// is passed on; extracted centroids go through `solve_from_centroids`.
    pub fn solve_from_image<C, S, G>(
        &mut self,
        extracted: Result<C, String>,
        solve: G,
        time: T,
        zero: F,
    ) -> (r: Result<SolveOutcome<S, F>, String>)
        where
            G: FnOnce(C) -> (S, SolveReport<F>),
        requires
            extracted matches Ok(c) ==> (old(self).solver_ready ==> call_requires(solve, (c,))),
            forall|c: C, s: S, rep: SolveReport<F>| #[trigger]
                call_ensures(solve, (c,), (s, rep)) ==> rep.targets_usable(),
        ensures
            extracted matches Err(e) ==> r == Err::<SolveOutcome<S, F>, String>(e) && *final(self)
                == (FusedSolver { last_solve_failed: true, ..*old(self) }),
            extracted is Ok && !old(self).solver_ready ==> (r matches Err(e) && e@
                == "Solver is not initialized."@) && *final(self) == *old(self),
            extracted matches Ok(c) ==> (old(self).solver_ready ==> (r matches Ok(o)
                && call_ensures(solve, (c,), (o.solution, o.report)) && *final(self) == old(
                self,
            ).after_solution(o.report, time, zero) && o.anchor == old(self).anchor_for(
                o.report,
                zero,
            ))),
    {
        match extracted {
            Err(e) => {
                self.last_solve_failed = true;
                Err(e)
            },
            Ok(centroids) => {
                if !self.solver_ready {
                    return Err(String::from_str("Solver is not initialized."));
                }
                let (solution, report) = solve(centroids);
                let anchor = self.record_solution(&report, time, zero);
                Ok(SolveOutcome { solution, report, anchor })
            },
        }
    }

    /// The latest orientation: the live IMU estimate while the IMU tracks
    /// and has one (its source telling whether it is fresh), otherwise the
    /// last solved position, marked stale when the latest solve failed.
    pub fn get_latest_position(&self, live: Option<LiveEstimate<F>>, now: T) -> (r: Option<
        Position<F, T>,
    >)
        ensures
            r == self.latest_position(live, now),
    {
        if let Some(est) = live {
            if self.imu_running && self.latitude.is_some() && self.longitude.is_some() {
                let source = if est.is_imu_estimate {
                    PositionSource::Imu
                } else if !self.last_solve_failed {
                    PositionSource::Solver
                } else if est.imu_calibrated {
                    PositionSource::Imu
                } else {
                    PositionSource::SolverStale
                };
                return Some(
                    Position { ra: est.ra, dec: est.dec, roll: est.roll, source, timestamp: now },
                );
            }
        }
        match &self.latest_solve_position {
            None => None,
            Some(p) => {
                let source = if self.last_solve_failed {
                    PositionSource::SolverStale
                } else {
                    p.source
                };
                Some(
                    Position { ra: p.ra, dec: p.dec, roll: p.roll, source, timestamp: p.timestamp },
                )
            },
        }
    }
}

/// Starting the IMU is refused without an observer location, whatever
/// else holds.
pub proof fn lemma_start_requires_location<F: Copy, T: Copy, D, St>(s: FusedSolver<F, T, D, St>)
    requires
        !s.location_set(),
    ensures
        s.start_refusal() == Some("Observer location must be set before starting the IMU."@),
{
}

/// Each IMU type probes only its own hardware: the BNO085 type never falls
/// back to a BMI160 nor the reverse, and Auto tries every BNO085 address
/// before any BMI160.
pub proof fn lemma_probe_families<D>()
    ensures
        forall|i: int|
            0 <= i < candidates_for(ImuType::<D>::Bno085).len() ==> #[trigger] candidates_for(
                ImuType::<D>::Bno085,
            )[i] is Bno085,
        forall|i: int|
            0 <= i < candidates_for(ImuType::<D>::Bmi160).len() ==> #[trigger] candidates_for(
                ImuType::<D>::Bmi160,
            )[i] is Bmi160,
        candidates_for(ImuType::<D>::Auto) == candidates_for(ImuType::<D>::Bno085)
            + candidates_for(ImuType::<D>::Bmi160),
{
    assert forall|i: int| 0 <= i < bno085_candidates().len() implies #[trigger] bno085_candidates()[i] is Bno085 by {
        assert(i == 0 || i == 1);
    }
    assert forall|i: int| 0 <= i < bmi160_candidates().len() implies #[trigger] bmi160_candidates()[i] is Bmi160 by {
        assert(i == 0 || i == 1);
    }
}

/// Once an IMU has been started, a second start is refused.
pub proof fn lemma_second_start_refused<F: Copy, T: Copy, D, St>(s: FusedSolver<F, T, D, St>)
    requires
        s.location_set(),
    ensures
        s.with_imu_started().start_refusal() == Some("IMU is already running."@),
{
}

/// Stopping is safe in any state, stopping twice is stopping once, and a
/// stopped IMU of a usable type may be started again.
pub proof fn lemma_stop_then_start<F: Copy, T: Copy, D, St>(s: FusedSolver<F, T, D, St>)
    ensures
        s.with_imu_stopped().with_imu_stopped() == s.with_imu_stopped(),
        s.location_set() && !(s.imu_type is Disabled) ==> s.with_imu_stopped().start_refusal()
            is None,
{
}

/// A successful solve becomes the latest position, with source Solver and
/// the solve's time, whenever the IMU gives no live estimate.
pub proof fn lemma_matched_solve_is_latest<F: Copy, T: Copy, D, St>(
    s: FusedSolver<F, T, D, St>,
    report: SolveReport<F>,
    time: T,
    zero: F,
    now: T,
)
    requires
        report.matched,
    ensures
        ({
            let (ra, dec, roll) = report.anchor_coordinates(zero);
            s.after_solution(report, time, zero).latest_position(None, now) == Some(
                Position { ra, dec, roll, source: PositionSource::Solver, timestamp: time },
            )
        }),
{
}

/// A failed solve keeps the last good position and only marks it stale.
pub proof fn lemma_failed_solve_keeps_position<F: Copy, T: Copy, D, St>(
    s: FusedSolver<F, T, D, St>,
    report: SolveReport<F>,
    time: T,
    zero: F,
    now: T,
)
    requires
        !report.matched,
    ensures
        s.after_solution(report, time, zero).latest_solve_position == s.latest_solve_position,
        s.after_solution(report, time, zero).latest_position(None, now) == (match s.latest_solve_position {
            None => None,
            Some(p) => Some(Position { source: PositionSource::SolverStale, ..p }),
        }),
{
}

/// Without a tracking IMU the latest position is the last solve, whatever
/// estimate is offered.
pub proof fn lemma_untracked_falls_back<F: Copy, T: Copy, D, St>(
    s: FusedSolver<F, T, D, St>,
    live: Option<LiveEstimate<F>>,
    now: T,
)
    requires
        !s.tracking(),
    ensures
        s.latest_position(live, now) == s.fallback_position(),
{
}

/// A solve never changes whether the IMU runs, which IMU type is set, or
/// the observer location; and it only hands the IMU an anchor when the
/// solve matched and the IMU tracks.
pub proof fn lemma_solve_keeps_configuration<F: Copy, T: Copy, D, St>(
    s: FusedSolver<F, T, D, St>,
    report: SolveReport<F>,
    time: T,
    zero: F,
)
    ensures
        s.after_solution(report, time, zero).imu_running == s.imu_running,
        s.after_solution(report, time, zero).imu_type == s.imu_type,
        s.after_solution(report, time, zero).latitude == s.latitude,
        s.after_solution(report, time, zero).longitude == s.longitude,
        s.after_solution(report, time, zero).solver_ready == s.solver_ready,
        s.anchor_for(report, zero) is Some <==> report.matched && s.tracking(),
{
}

/// Starting the IMU never replaces a running one: a start that succeeds
/// began with no IMU running and leaves one running; a start that fails
/// leaves the running state as it was; and with the location set, a start
/// while the IMU runs is refused as already running and changes nothing,
/// the IMU type included.
pub proof fn lemma_start_keeps_running_imu<F: Copy, T: Copy, D, St, Dev, I, P, G>(
    before: FusedSolver<F, T, D, St>,
    probe: P,
    start: G,
    r: Result<I, String>,
    after: FusedSolver<F, T, D, St>,
) where
    P: Fn(ImuCandidate) -> Result<Dev, String>,
    G: FnOnce(ImuStartDevice<Dev, D>, &Option<St>) -> Result<I, String>,
    requires
        before.start_outcome(probe, start, r, after),
    ensures
        r is Ok ==> !before.imu_running && after.imu_running,
        r is Err ==> after.imu_running == before.imu_running,
        before.imu_running && before.location_set() ==> (r matches Err(e) && e@
            == "IMU is already running."@) && after == before,
{
}

/// A start is refused for want of an observer location exactly when one
/// of the coordinates is missing, provided the tracker start itself never
/// fails with that same message; such a refusal changes nothing, so a
/// custom device is not consumed.
pub proof fn lemma_location_refusal_exact<F: Copy, T: Copy, D, St, Dev, I, P, G>(
    before: FusedSolver<F, T, D, St>,
    probe: P,
    start: G,
    r: Result<I, String>,
    after: FusedSolver<F, T, D, St>,
) where
    P: Fn(ImuCandidate) -> Result<Dev, String>,
    G: FnOnce(ImuStartDevice<Dev, D>, &Option<St>) -> Result<I, String>,
    requires
        before.start_outcome(probe, start, r, after),
        forall|dev: ImuStartDevice<Dev, D>, e: String|
            #[trigger] call_ensures(start, (dev, &before.storage), Err::<I, String>(e)) ==> e@
                != "Observer location must be set before starting the IMU."@,
    ensures
        (r matches Err(e) && e@ == "Observer location must be set before starting the IMU."@)
            <==> !before.location_set(),
        !before.location_set() ==> after == before,
{
    let location = "Observer location must be set before starting the IMU.";
    let running = "IMU is already running.";
    let disabled = "Cannot start IMU because ImuType is None.";
    let auto = "Auto mode could not find any supported IMU hardware.";
    let bno = "BNO085 hardware not found on I2C bus.";
    let bmi = "BMI160 hardware not found on I2C bus.";
    reveal_strlit("Observer location must be set before starting the IMU.");
    reveal_strlit("IMU is already running.");
    reveal_strlit("Cannot start IMU because ImuType is None.");
    reveal_strlit("Auto mode could not find any supported IMU hardware.");
    reveal_strlit("BNO085 hardware not found on I2C bus.");
    reveal_strlit("BMI160 hardware not found on I2C bus.");
    assert(location@[0] != running@[0]);
    assert(location@[0] != disabled@[0]);
    assert(location@[0] != auto@[0]);
    assert(location@[0] != bno@[0]);
    assert(location@[0] != bmi@[0]);
    if before.location_set() && before.start_refusal() is None {
        if let Err(e) = r {
            match before.imu_type {
                ImuType::Custom(d) => {
                    assert(call_ensures(
                        start,
                        (ImuStartDevice::<Dev, D>::Custom(CustomImuWrapper(d)), &before.storage),
                        Err::<I, String>(e),
                    ));
                },
                _ => {
                    let cands = candidates_for(before.imu_type);
                    if exists|i: int, dev: Dev|
                        #[trigger] started_on(probe, start, cands, before.storage, i, dev, Err::<I, String>(e))
                    {
                        let (i, dev) = choose|i: int, dev: Dev|
                            #[trigger] started_on(probe, start, cands, before.storage, i, dev, Err::<I, String>(e));
                        assert(call_ensures(
                            start,
                            (ImuStartDevice::<Dev, D>::Probed { candidate: cands[i], device: dev }, &before.storage),
                            Err::<I, String>(e),
                        ));
                    }
                },
            }
        }
    }
}

/// Starting a custom device consumes it whatever the tracker start gives:
/// `ImuType::Disabled` is left behind, so once the IMU is stopped again a
/// further start is refused for having no IMU type.
pub proof fn lemma_custom_start_consumes_device<F: Copy, T: Copy, D, St, Dev, I, P, G>(
    before: FusedSolver<F, T, D, St>,
    probe: P,
    start: G,
    r: Result<I, String>,
    after: FusedSolver<F, T, D, St>,
) where
    P: Fn(ImuCandidate) -> Result<Dev, String>,
    G: FnOnce(ImuStartDevice<Dev, D>, &Option<St>) -> Result<I, String>,
    requires
        before.start_outcome(probe, start, r, after),
        before.location_set(),
        !before.imu_running,
        before.imu_type is Custom,
    ensures
        after.imu_type is Disabled,
        after.with_imu_stopped().start_refusal() == Some(
            "Cannot start IMU because ImuType is None."@,
        ),
{
}

/// After a matched solve at `t1` that gave no target coordinates and then
/// a failed solve, the latest position without a tracking IMU is the first
/// solve's field centre (`zero` where a coordinate is missing), marked
/// stale and timed `t1`; a further matched solve at `t3` makes the source
/// Solver again, timed `t3`.
pub proof fn lemma_stale_until_next_match<F: Copy, T: Copy, D, St>(
    s: FusedSolver<F, T, D, St>,
    first: SolveReport<F>,
    t1: T,
    failed: SolveReport<F>,
    t2: T,
    next: SolveReport<F>,
    t3: T,
    zero: F,
    live: Option<LiveEstimate<F>>,
    now: T,
)
    requires
        !s.imu_running,
        first.matched,
        first.target_ra is None,
        !failed.matched,
        next.matched,
    ensures
        ({
            let stale = s.after_solution(first, t1, zero).after_solution(failed, t2, zero);
            &&& stale.latest_position(live, now) == Some(
                Position {
                    ra: match first.ra {
                        Some(x) => x,
                        None => zero,
                    },
                    dec: match first.dec {
                        Some(x) => x,
                        None => zero,
                    },
                    roll: match first.roll {
                        Some(x) => x,
                        None => zero,
                    },
                    source: PositionSource::SolverStale,
                    timestamp: t1,
                },
            )
            &&& stale.after_solution(next, t3, zero).latest_position(live, now) == ({
                let (ra, dec, roll) = next.anchor_coordinates(zero);
                Some(Position { ra, dec, roll, source: PositionSource::Solver, timestamp: t3 })
            })
        }),
{
}

/// A failed start of a probed IMU type (Auto, BNO085, BMI160) leaves the
/// state exactly as it was, the IMU type included, whether no hardware
/// answered or the tracker failed to start on the hardware found; only a
/// custom device is consumed by a failed start.
pub proof fn lemma_failed_probed_start_changes_nothing<F: Copy, T: Copy, D, St, Dev, I, P, G>(
    before: FusedSolver<F, T, D, St>,
    probe: P,
    start: G,
    r: Result<I, String>,
    after: FusedSolver<F, T, D, St>,
) where
    P: Fn(ImuCandidate) -> Result<Dev, String>,
    G: FnOnce(ImuStartDevice<Dev, D>, &Option<St>) -> Result<I, String>,
    requires
        before.start_outcome(probe, start, r, after),
        !(before.imu_type is Custom),
        r is Err,
    ensures
        after == before,
        after.imu_type == before.imu_type,
        before.start_refusal() is None ==> !after.imu_running,
        before.location_set() ==> after.start_refusal() == before.start_refusal(),
{
}

/// What the latest position is while the IMU tracks and offers an
/// estimate: the estimate itself, timed now, with source Imu when it is a
/// real IMU estimate (whatever the last solve and the calibration), and
/// otherwise (the estimate is the anchor) source Solver after a good solve,
/// Imu after a failed one when the IMU is calibrated, SolverStale when not.
pub proof fn lemma_tracking_reports_live_estimate<F: Copy, T: Copy, D, St>(
    s: FusedSolver<F, T, D, St>,
    est: LiveEstimate<F>,
    now: T,
)
    requires
        s.imu_running,
        s.location_set(),
    ensures
        est.is_imu_estimate ==> s.latest_position(Some(est), now) == Some(
            Position {
                ra: est.ra,
                dec: est.dec,
                roll: est.roll,
                source: PositionSource::Imu,
                timestamp: now,
            },
        ),
        !est.is_imu_estimate && !s.last_solve_failed ==> s.latest_position(Some(est), now) == Some(
            Position {
                ra: est.ra,
                dec: est.dec,
                roll: est.roll,
                source: PositionSource::Solver,
                timestamp: now,
            },
        ),
        !est.is_imu_estimate && s.last_solve_failed && est.imu_calibrated ==> s.latest_position(
            Some(est),
            now,
        ) == Some(
            Position {
                ra: est.ra,
                dec: est.dec,
                roll: est.roll,
                source: PositionSource::Imu,
                timestamp: now,
            },
        ),
        !est.is_imu_estimate && s.last_solve_failed && !est.imu_calibrated ==> s.latest_position(
            Some(est),
            now,
        ) == Some(
            Position {
                ra: est.ra,
                dec: est.dec,
                roll: est.roll,
                source: PositionSource::SolverStale,
                timestamp: now,
            },
        ),
{
}

/// A matched solve books as latest position the first target's RA/Dec when
/// target coordinates are given and the field centre otherwise (`zero` for
/// what is missing), with the solved roll; while the IMU tracks, the anchor
/// handed to it carries that same RA, Dec and roll with the observer
/// latitude and longitude, and without tracking no anchor is handed over.
pub proof fn lemma_anchor_is_booked_position<F: Copy, T: Copy, D, St>(
    s: FusedSolver<F, T, D, St>,
    report: SolveReport<F>,
    time: T,
    zero: F,
)
    requires
        report.matched,
    ensures
        ({
            let p = s.after_solution(report, time, zero).latest_solve_position->0;
            &&& s.after_solution(report, time, zero).latest_solve_position is Some
            &&& p.roll == (match report.roll {
                Some(r) => r,
                None => zero,
            })
            &&& p.source == PositionSource::Solver
            &&& p.timestamp == time
            &&& (report.target_ra is Some && report.target_dec is Some) ==> (p.ra
                == report.target_ra->0@[0] && p.dec == report.target_dec->0@[0])
            &&& (report.target_ra is None || report.target_dec is None) ==> (p.ra == (match report.ra {
                Some(r) => r,
                None => zero,
            }) && p.dec == (match report.dec {
                Some(d) => d,
                None => zero,
            }))
            &&& s.tracking() ==> s.anchor_for(report, zero) == Some(
                MountAnchor {
                    ra: p.ra,
                    dec: p.dec,
                    roll: p.roll,
                    latitude: s.latitude->0,
                    longitude: s.longitude->0,
                },
            )
            &&& !s.tracking() ==> s.anchor_for(report, zero) is None
        }),
{
}

} // verus!
