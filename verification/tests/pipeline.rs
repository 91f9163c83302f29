use spectralfilm::runtime::params::{DebugMode, DebugParams};
use spectralfilm::runtime::pipeline::{plan_simulation, SimulationResult, SimulationStep};

use SimulationStep::{AutoExposure, CropAndRescale, DevelopFilm, DevelopPrint, ExposeFilm, ExposePrint, Scan};

#[test]
fn default_run_prints_and_scans() {
    let (steps, result) = plan_simulation(&DebugParams::default(), false);
    assert_eq!(
        steps,
        vec![AutoExposure, CropAndRescale, ExposeFilm, DevelopFilm, ExposePrint, DevelopPrint, Scan]
    );
    assert_eq!(result, SimulationResult::ScannedRgb);
}

#[test]
fn film_scan_skips_printing() {
    let (steps, result) = plan_simulation(&DebugParams::default(), true);
    assert_eq!(steps, vec![AutoExposure, CropAndRescale, ExposeFilm, DevelopFilm, Scan]);
    assert_eq!(result, SimulationResult::ScannedRgb);
}

#[test]
fn output_mode_stops_early() {
    let raw = DebugParams { debug_mode: DebugMode::Output, output_film_log_raw: true, ..DebugParams::default() };
    assert_eq!(
        plan_simulation(&raw, false),
        (vec![AutoExposure, CropAndRescale, ExposeFilm], SimulationResult::FilmLogRaw)
    );
    let film = DebugParams { debug_mode: DebugMode::Output, output_film_density_cmy: true, ..DebugParams::default() };
    assert_eq!(
        plan_simulation(&film, true),
        (vec![AutoExposure, CropAndRescale, ExposeFilm, DevelopFilm], SimulationResult::FilmDensityCmy)
    );
    let print = DebugParams { debug_mode: DebugMode::Output, output_print_density_cmy: true, ..DebugParams::default() };
    assert_eq!(
        plan_simulation(&print, false),
        (
            vec![AutoExposure, CropAndRescale, ExposeFilm, DevelopFilm, ExposePrint, DevelopPrint],
            SimulationResult::PrintDensityCmy
        )
    );
}

#[test]
fn output_switches_do_nothing_outside_output_mode() {
    let d = DebugParams {
        output_film_log_raw: true,
        output_film_density_cmy: true,
        output_print_density_cmy: true,
        ..DebugParams::default()
    };
    assert_eq!(plan_simulation(&d, false), plan_simulation(&DebugParams::default(), false));
}

#[test]
fn injection_starts_from_film_density() {
    let d = DebugParams { debug_mode: DebugMode::Inject, inject_film_density_cmy: true, ..DebugParams::default() };
    assert_eq!(plan_simulation(&d, false), (vec![ExposePrint, DevelopPrint, Scan], SimulationResult::ScannedRgb));
    assert_eq!(plan_simulation(&d, true), (vec![Scan], SimulationResult::ScannedRgb));
    let off = DebugParams { debug_mode: DebugMode::Inject, ..DebugParams::default() };
    assert_eq!(plan_simulation(&off, false), plan_simulation(&DebugParams::default(), false));
}

#[test]
fn lut_generation_skips_crop() {
    let d = DebugParams { debug_mode: DebugMode::LutGeneration, ..DebugParams::default() };
    assert_eq!(
        plan_simulation(&d, false),
        (
            vec![AutoExposure, ExposeFilm, DevelopFilm, ExposePrint, DevelopPrint, Scan],
            SimulationResult::ScannedRgb
        )
    );
}
