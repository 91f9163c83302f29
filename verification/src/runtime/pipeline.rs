//! Decisions of the simulation pipeline: input validation and the sequence
//! of stages a run goes through for given debug switches.
//!
//! The stages themselves compute on floating-point images and run outside
//! this module, in the order this module prescribes.

use vstd::prelude::*;
use crate::runtime::params::{DebugMode, DebugParams};

verus! {

/// Why a simulation run was refused.
#[derive(Debug, Clone)]
pub enum SimulationError {
    InvalidInput(String),
}

pub const INPUT_TOO_SHORT: &'static str = "input buffer shorter than width*height*3";

/// Check that an input buffer of `image_len` samples holds a whole
/// `width` x `height` RGB image; on success return the sample count.
pub fn check_input_buffer(image_len: usize, width: usize, height: usize) -> (r: Result<usize, SimulationError>)
    requires
        width * height * 3 <= usize::MAX,
    ensures
        image_len >= width * height * 3 ==> r == Ok::<usize, SimulationError>((width * height * 3) as usize),
        image_len < width * height * 3 ==> (r matches Err(SimulationError::InvalidInput(m)) && m@ == INPUT_TOO_SHORT@),
{
    proof {
        assert(width * height <= width * height * 3) by (nonlinear_arith)
            requires width * height >= 0;
    }
    let n = width * height * 3;
    if image_len < n {
        return Err(SimulationError::InvalidInput(INPUT_TOO_SHORT.to_owned()));
    }
    Ok(n)
}

/// One stage of a simulation run.
#[derive(Debug, Clone, Copy, PartialEq, Eq, Structural)]
pub enum SimulationStep {
    /// Meter the input and scale it to the metered exposure.
    AutoExposure,
    /// Crop and rescale the exposed image.
    CropAndRescale,
    /// Expose the film: input RGB to film log exposure.
    ExposeFilm,
    /// Develop the film: log exposure to film CMY density.
    DevelopFilm,
    /// Expose the print paper through the developed film.
    ExposePrint,
    /// Develop the print paper to print CMY density.
    DevelopPrint,
    /// Scan the final medium to output RGB.
    Scan,
}

/// What a run returns.
#[derive(Debug, Clone, Copy, PartialEq, Eq, Structural)]
pub enum SimulationResult {
    FilmLogRaw,
    FilmDensityCmy,
    PrintDensityCmy,
    ScannedRgb,
}

/// The input is taken as film density directly.
pub open spec fn injects_film_density(d: DebugParams) -> bool {
    d.debug_mode == DebugMode::Inject && d.inject_film_density_cmy
}

/// The stages up to a developed film, and whether the run stops there.
pub open spec fn film_steps(d: DebugParams) -> (Seq<SimulationStep>, Option<SimulationResult>) {
    if injects_film_density(d) {
        (seq![], None)
    } else if d.debug_mode == DebugMode::LutGeneration {
        (seq![SimulationStep::AutoExposure, SimulationStep::ExposeFilm, SimulationStep::DevelopFilm], None)
    } else if d.debug_mode == DebugMode::Output && d.output_film_log_raw {
        (seq![SimulationStep::AutoExposure, SimulationStep::CropAndRescale, SimulationStep::ExposeFilm], Some(
            SimulationResult::FilmLogRaw,
        ))
    } else if d.debug_mode == DebugMode::Output && d.output_film_density_cmy {
        (
            seq![
                SimulationStep::AutoExposure,
                SimulationStep::CropAndRescale,
                SimulationStep::ExposeFilm,
                SimulationStep::DevelopFilm,
            ],
            Some(SimulationResult::FilmDensityCmy),
        )
    } else {
        (
            seq![
                SimulationStep::AutoExposure,
                SimulationStep::CropAndRescale,
                SimulationStep::ExposeFilm,
                SimulationStep::DevelopFilm,
            ],
            None,
        )
    }
}

/// The full sequence of stages of a run and what it returns: after the film
/// stages, a film scan when `scan_film` is set, and otherwise printing
/// (possibly stopping at the print density) followed by a scan of the print.
pub open spec fn simulation_plan(d: DebugParams, scan_film: bool) -> (Seq<SimulationStep>, SimulationResult) {
    let (film, stop) = film_steps(d);
    match stop {
        Some(res) => (film, res),
        None => if scan_film {
            (film + seq![SimulationStep::Scan], SimulationResult::ScannedRgb)
        } else if d.debug_mode == DebugMode::Output && d.output_print_density_cmy {
            (film + seq![SimulationStep::ExposePrint, SimulationStep::DevelopPrint], SimulationResult::PrintDensityCmy)
        } else {
            (
                film + seq![SimulationStep::ExposePrint, SimulationStep::DevelopPrint, SimulationStep::Scan],
                SimulationResult::ScannedRgb,
            )
        },
    }
}

fn push_all(out: &mut Vec<SimulationStep>, steps: &[SimulationStep])
    ensures
        final(out)@ == old(out)@ + steps@,
{
    let mut i: usize = 0;
    while i < steps.len()
        invariant
            i <= steps@.len(),
            out@ == old(out)@ + steps@.subrange(0, i as int),
        decreases steps@.len() - i,
    {
        out.push(steps[i]);
        proof {
            assert(steps@.subrange(0, i + 1) =~= steps@.subrange(0, i as int).push(steps@[i as int]));
        }
        i = i + 1;
    }
    proof {
        assert(steps@.subrange(0, steps@.len() as int) =~= steps@);
    }
}

/// The stages a run goes through, in order, and what it returns.
pub fn plan_simulation(debug: &DebugParams, scan_film: bool) -> (r: (Vec<SimulationStep>, SimulationResult))
    ensures
        r.0@ == simulation_plan(*debug, scan_film).0,
        r.1 == simulation_plan(*debug, scan_film).1,
{
    let mut steps: Vec<SimulationStep> = Vec::new();
    let output = debug.debug_mode == DebugMode::Output;
    if debug.debug_mode == DebugMode::Inject && debug.inject_film_density_cmy {
    } else if debug.debug_mode == DebugMode::LutGeneration {
        push_all(&mut steps, &[SimulationStep::AutoExposure, SimulationStep::ExposeFilm, SimulationStep::DevelopFilm]);
    } else {
        push_all(&mut steps, &[SimulationStep::AutoExposure, SimulationStep::CropAndRescale, SimulationStep::ExposeFilm]);
        if output && debug.output_film_log_raw {
            return (steps, SimulationResult::FilmLogRaw);
        }
        steps.push(SimulationStep::DevelopFilm);
        if output && debug.output_film_density_cmy {
            return (steps, SimulationResult::FilmDensityCmy);
        }
    }
    if scan_film {
        steps.push(SimulationStep::Scan);
        return (steps, SimulationResult::ScannedRgb);
    }
    push_all(&mut steps, &[SimulationStep::ExposePrint, SimulationStep::DevelopPrint]);
    if output && debug.output_print_density_cmy {
        return (steps, SimulationResult::PrintDensityCmy);
    }
    steps.push(SimulationStep::Scan);
    (steps, SimulationResult::ScannedRgb)
}

/// The output switches only take effect in output mode, and the injection
/// switch only in injection mode: a run with the other modes goes through
/// the same stages whatever those switches say.
pub proof fn lemma_switches_outside_their_mode_change_nothing(d: DebugParams, e: DebugParams, scan_film: bool)
    requires
        d.debug_mode == e.debug_mode,
        d.debug_mode != DebugMode::Output ==> d.debug_mode != DebugMode::Inject || d.inject_film_density_cmy
            == e.inject_film_density_cmy,
        d.debug_mode == DebugMode::Output ==> d.output_film_log_raw == e.output_film_log_raw
            && d.output_film_density_cmy == e.output_film_density_cmy && d.output_print_density_cmy
            == e.output_print_density_cmy,
    ensures
        simulation_plan(d, scan_film) == simulation_plan(e, scan_film),
{
}

/// A run that is not stopped early always ends with a scan, and every run
/// that exposes a print develops it right after.
pub proof fn lemma_plan_shape(d: DebugParams, scan_film: bool)
    ensures
        ({
            let (steps, result) = simulation_plan(d, scan_film);
            &&& result == SimulationResult::ScannedRgb ==> steps.len() > 0 && steps.last() == SimulationStep::Scan
            &&& forall|i: int| 0 <= i < steps.len() && #[trigger] steps[i] == SimulationStep::ExposePrint ==> i + 1
                < steps.len() && steps[i + 1] == SimulationStep::DevelopPrint
        }),
{
    let (film, _) = film_steps(d);
    assert(forall|i: int| 0 <= i < film.len() ==> film[i] != SimulationStep::ExposePrint);
}

/// Scanning the film never prints: with `scan_film` set, no run exposes or
/// develops a print or returns a print density, and a run that is not
/// stopped in the film stages ends in exactly one scan, right after the film
/// stages that the same settings would print from. Outside output mode no
/// run stops early, so it always ends in that scan; in LUT generation the
/// plan is metering, exposing and developing the film, then the scan.
pub proof fn lemma_film_scan_never_prints(d: DebugParams)
    ensures
        ({
            let (steps, result) = simulation_plan(d, true);
            let (printed, print_result) = simulation_plan(d, false);
            &&& forall|i: int|
                0 <= i < steps.len() ==> #[trigger] steps[i] != SimulationStep::ExposePrint && steps[i]
                    != SimulationStep::DevelopPrint
            &&& result != SimulationResult::PrintDensityCmy
            &&& result == SimulationResult::ScannedRgb ==> {
                &&& steps.len() >= 1
                &&& steps.last() == SimulationStep::Scan
                &&& forall|i: int| 0 <= i < steps.len() - 1 ==> #[trigger] steps[i] != SimulationStep::Scan
                &&& printed.len() >= steps.len() + 1
                &&& printed.subrange(0, steps.len() - 1) == steps.drop_last()
                &&& printed[steps.len() - 1] == SimulationStep::ExposePrint
                &&& printed[steps.len() as int] == SimulationStep::DevelopPrint
            }
            &&& result != SimulationResult::ScannedRgb ==> steps == printed && result == print_result
            &&& d.debug_mode != DebugMode::Output ==> result == SimulationResult::ScannedRgb
            &&& d.debug_mode == DebugMode::LutGeneration ==> steps == seq![
                SimulationStep::AutoExposure,
                SimulationStep::ExposeFilm,
                SimulationStep::DevelopFilm,
                SimulationStep::Scan,
            ]
        }),
{
    let (film, stop) = film_steps(d);
    assert(forall|i: int| 0 <= i < film.len() ==> film[i] != SimulationStep::ExposePrint && film[i]
        != SimulationStep::DevelopPrint && film[i] != SimulationStep::Scan);
    if stop is None {
        let (steps, _) = simulation_plan(d, true);
        assert(steps.drop_last() =~= film);
        assert(simulation_plan(d, false).0.subrange(0, film.len() as int) =~= film);
    }
}

/// The stages of a run for each debug mode. A plain run (mode off, output
/// mode with no output switch, injection mode without injected density)
/// meters, crops, exposes and develops the film, then either scans it or
/// prints it and scans the print. Injecting film density skips the film
/// stages. LUT generation skips the crop. Output mode stops after exposing
/// the film when the raw exposure is asked for, after developing it when the
/// film density is asked for, and otherwise, when printing, after developing
/// the print when the print density is asked for.
pub proof fn lemma_plan_by_mode(d: DebugParams)
    ensures
        ({
            let plain = d.debug_mode == DebugMode::Off || (d.debug_mode == DebugMode::Inject
                && !d.inject_film_density_cmy) || (d.debug_mode == DebugMode::Output && !d.output_film_log_raw
                && !d.output_film_density_cmy && !d.output_print_density_cmy);
            &&& plain ==> simulation_plan(d, false) == (
                seq![
                    SimulationStep::AutoExposure,
                    SimulationStep::CropAndRescale,
                    SimulationStep::ExposeFilm,
                    SimulationStep::DevelopFilm,
                    SimulationStep::ExposePrint,
                    SimulationStep::DevelopPrint,
                    SimulationStep::Scan,
                ],
                SimulationResult::ScannedRgb,
            )
            &&& plain ==> simulation_plan(d, true) == (
                seq![
                    SimulationStep::AutoExposure,
                    SimulationStep::CropAndRescale,
                    SimulationStep::ExposeFilm,
                    SimulationStep::DevelopFilm,
                    SimulationStep::Scan,
                ],
                SimulationResult::ScannedRgb,
            )
            &&& d.debug_mode == DebugMode::Inject && d.inject_film_density_cmy ==> simulation_plan(d, false) == (
                seq![SimulationStep::ExposePrint, SimulationStep::DevelopPrint, SimulationStep::Scan],
                SimulationResult::ScannedRgb,
            )
            &&& d.debug_mode == DebugMode::Inject && d.inject_film_density_cmy ==> simulation_plan(d, true) == (
                seq![SimulationStep::Scan],
                SimulationResult::ScannedRgb,
            )
            &&& d.debug_mode == DebugMode::LutGeneration ==> simulation_plan(d, false) == (
                seq![
                    SimulationStep::AutoExposure,
                    SimulationStep::ExposeFilm,
                    SimulationStep::DevelopFilm,
                    SimulationStep::ExposePrint,
                    SimulationStep::DevelopPrint,
                    SimulationStep::Scan,
                ],
                SimulationResult::ScannedRgb,
            )
            &&& forall|scan_film: bool| d.debug_mode == DebugMode::Output && d.output_film_log_raw ==> #[trigger] simulation_plan(d, scan_film) == (
                seq![SimulationStep::AutoExposure, SimulationStep::CropAndRescale, SimulationStep::ExposeFilm],
                SimulationResult::FilmLogRaw,
            )
            &&& forall|scan_film: bool| d.debug_mode == DebugMode::Output && !d.output_film_log_raw
                && d.output_film_density_cmy ==> #[trigger] simulation_plan(d, scan_film) == (
                seq![
                    SimulationStep::AutoExposure,
                    SimulationStep::CropAndRescale,
                    SimulationStep::ExposeFilm,
                    SimulationStep::DevelopFilm,
                ],
                SimulationResult::FilmDensityCmy,
            )
            &&& d.debug_mode == DebugMode::Output && !d.output_film_log_raw && !d.output_film_density_cmy
                && d.output_print_density_cmy ==> simulation_plan(d, false) == (
                seq![
                    SimulationStep::AutoExposure,
                    SimulationStep::CropAndRescale,
                    SimulationStep::ExposeFilm,
                    SimulationStep::DevelopFilm,
                    SimulationStep::ExposePrint,
                    SimulationStep::DevelopPrint,
                ],
                SimulationResult::PrintDensityCmy,
            )
            &&& d.debug_mode == DebugMode::Output && !d.output_film_log_raw && !d.output_film_density_cmy
                && d.output_print_density_cmy ==> simulation_plan(d, true) == (
                seq![
                    SimulationStep::AutoExposure,
                    SimulationStep::CropAndRescale,
                    SimulationStep::ExposeFilm,
                    SimulationStep::DevelopFilm,
                    SimulationStep::Scan,
                ],
                SimulationResult::ScannedRgb,
            )
        }),
{
    let a = seq![
        SimulationStep::AutoExposure,
        SimulationStep::CropAndRescale,
        SimulationStep::ExposeFilm,
        SimulationStep::DevelopFilm,
    ];
    assert(a + seq![SimulationStep::ExposePrint, SimulationStep::DevelopPrint, SimulationStep::Scan] =~= seq![
        SimulationStep::AutoExposure,
        SimulationStep::CropAndRescale,
        SimulationStep::ExposeFilm,
        SimulationStep::DevelopFilm,
        SimulationStep::ExposePrint,
        SimulationStep::DevelopPrint,
        SimulationStep::Scan,
    ]);
    assert(a + seq![SimulationStep::Scan] =~= seq![
        SimulationStep::AutoExposure,
        SimulationStep::CropAndRescale,
        SimulationStep::ExposeFilm,
        SimulationStep::DevelopFilm,
        SimulationStep::Scan,
    ]);
    assert(a + seq![SimulationStep::ExposePrint, SimulationStep::DevelopPrint] =~= seq![
        SimulationStep::AutoExposure,
        SimulationStep::CropAndRescale,
        SimulationStep::ExposeFilm,
        SimulationStep::DevelopFilm,
        SimulationStep::ExposePrint,
        SimulationStep::DevelopPrint,
    ]);
    let e: Seq<SimulationStep> = seq![];
    assert(e + seq![SimulationStep::ExposePrint, SimulationStep::DevelopPrint, SimulationStep::Scan] =~= seq![
        SimulationStep::ExposePrint,
        SimulationStep::DevelopPrint,
        SimulationStep::Scan,
    ]);
    assert(e + seq![SimulationStep::Scan] =~= seq![SimulationStep::Scan]);
    let l = seq![SimulationStep::AutoExposure, SimulationStep::ExposeFilm, SimulationStep::DevelopFilm];
    assert(l + seq![SimulationStep::ExposePrint, SimulationStep::DevelopPrint, SimulationStep::Scan] =~= seq![
        SimulationStep::AutoExposure,
        SimulationStep::ExposeFilm,
        SimulationStep::DevelopFilm,
        SimulationStep::ExposePrint,
        SimulationStep::DevelopPrint,
        SimulationStep::Scan,
    ]);
}

} // verus!
