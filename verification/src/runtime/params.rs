//! Runtime parameters that hold no floating-point values: debug switches and
//! simulation settings, with their partial-update patches.

use vstd::prelude::*;

verus! {

/// What the pipeline does with intermediate results.
#[derive(Debug, Clone, Copy, PartialEq, Eq, Structural)]
pub enum DebugMode {
    Off,
    Output,
    Inject,
    LutGeneration,
}

impl Default for DebugMode {
    fn default() -> (r: Self)
        ensures
            r == DebugMode::Off,
    {
        DebugMode::Off
    }
}

/// Debug switches of a simulation run.
#[derive(Debug, Clone, Copy, PartialEq, Eq, Structural)]
pub struct DebugParams {
    pub deactivate_spatial_effects: bool,
    pub deactivate_stochastic_effects: bool,
    pub print_timings: bool,
    pub debug_mode: DebugMode,
    pub output_film_log_raw: bool,
    pub output_film_density_cmy: bool,
    pub output_print_density_cmy: bool,
    pub inject_film_density_cmy: bool,
}

/// The debug parameters used when none are given: every switch off.
pub open spec fn default_debug_params() -> DebugParams {
    DebugParams {
        deactivate_spatial_effects: false,
        deactivate_stochastic_effects: false,
        print_timings: false,
        debug_mode: DebugMode::Off,
        output_film_log_raw: false,
        output_film_density_cmy: false,
        output_print_density_cmy: false,
        inject_film_density_cmy: false,
    }
}

impl Default for DebugParams {
    fn default() -> (r: Self)
        ensures
            r == default_debug_params(),
    {
        DebugParams {
            deactivate_spatial_effects: false,
            deactivate_stochastic_effects: false,
            print_timings: false,
            debug_mode: DebugMode::Off,
            output_film_log_raw: false,
            output_film_density_cmy: false,
            output_print_density_cmy: false,
            inject_film_density_cmy: false,
        }
    }
}

/// Global simulation settings.
#[derive(Debug, Clone)]
pub struct SimulationSettings {
    pub rgb_to_raw_method: String,
    pub bandpass_hanatos2025: bool,
    pub use_enlarger_lut: bool,
    pub use_scanner_lut: bool,
    pub lut_resolution: usize,
    pub use_fast_stats: bool,
    pub preview_max_size: usize,
    pub preview_mode: bool,
    pub neutral_print_filters_from_database: bool,
}

/// The spectral upsampling method used when none is given.
pub const DEFAULT_RGB_TO_RAW_METHOD: &'static str = "hanatos2025";

/// The settings used when none are given.
pub open spec fn is_default_settings(s: SimulationSettings) -> bool {
    &&& s.rgb_to_raw_method@ == DEFAULT_RGB_TO_RAW_METHOD@
    &&& s.bandpass_hanatos2025
    &&& !s.use_enlarger_lut
    &&& !s.use_scanner_lut
    &&& s.lut_resolution == 17
    &&& !s.use_fast_stats
    &&& s.preview_max_size == 640
    &&& !s.preview_mode
    &&& s.neutral_print_filters_from_database
}

impl Default for SimulationSettings {
    fn default() -> (r: Self)
        ensures
            is_default_settings(r),
    {
        SimulationSettings {
            rgb_to_raw_method: DEFAULT_RGB_TO_RAW_METHOD.to_owned(),
            bandpass_hanatos2025: true,
            use_enlarger_lut: false,
            use_scanner_lut: false,
            lut_resolution: 17,
            use_fast_stats: false,
            preview_max_size: 640,
            preview_mode: false,
            neutral_print_filters_from_database: true,
        }
    }
}

/// The value after a patch: the patched value where the patch has one, the
/// old value otherwise.
pub open spec fn patched<T>(old: T, patch: Option<T>) -> T {
    match patch {
        Some(v) => v,
        None => old,
    }
}

/// The String view after a patch.
pub open spec fn patched_text(old: Seq<char>, patch: Option<String>) -> Seq<char> {
    match patch {
        Some(v) => v@,
        None => old,
    }
}

/// A partial update of `DebugParams`: each `Some` field replaces the
/// corresponding parameter.
#[derive(Debug, Clone, Copy, PartialEq, Eq, Structural)]
pub struct DebugParamsPatch {
    pub deactivate_spatial_effects: Option<bool>,
    pub deactivate_stochastic_effects: Option<bool>,
    pub print_timings: Option<bool>,
    pub debug_mode: Option<DebugMode>,
    pub output_film_log_raw: Option<bool>,
    pub output_film_density_cmy: Option<bool>,
    pub output_print_density_cmy: Option<bool>,
    pub inject_film_density_cmy: Option<bool>,
}

/// The patch that changes nothing.
pub open spec fn empty_debug_patch() -> DebugParamsPatch {
    DebugParamsPatch {
        deactivate_spatial_effects: None,
        deactivate_stochastic_effects: None,
        print_timings: None,
        debug_mode: None,
        output_film_log_raw: None,
        output_film_density_cmy: None,
        output_print_density_cmy: None,
        inject_film_density_cmy: None,
    }
}

/// `p` with the fields that `patch` holds replaced.
pub open spec fn debug_params_patched(p: DebugParams, patch: DebugParamsPatch) -> DebugParams {
    DebugParams {
        deactivate_spatial_effects: patched(p.deactivate_spatial_effects, patch.deactivate_spatial_effects),
        deactivate_stochastic_effects: patched(p.deactivate_stochastic_effects, patch.deactivate_stochastic_effects),
        print_timings: patched(p.print_timings, patch.print_timings),
        debug_mode: patched(p.debug_mode, patch.debug_mode),
        output_film_log_raw: patched(p.output_film_log_raw, patch.output_film_log_raw),
        output_film_density_cmy: patched(p.output_film_density_cmy, patch.output_film_density_cmy),
        output_print_density_cmy: patched(p.output_print_density_cmy, patch.output_print_density_cmy),
        inject_film_density_cmy: patched(p.inject_film_density_cmy, patch.inject_film_density_cmy),
    }
}

/// The patched value of one field: the patch's value if it has one.
pub fn patch_value<T>(old: T, patch: Option<T>) -> (r: T)
    ensures
        r == patched(old, patch),
{
    match patch {
        Some(v) => v,
        None => old,
    }
}

impl Default for DebugParamsPatch {
    fn default() -> (r: Self)
        ensures
            r == empty_debug_patch(),
    {
        DebugParamsPatch {
            deactivate_spatial_effects: None,
            deactivate_stochastic_effects: None,
            print_timings: None,
            debug_mode: None,
            output_film_log_raw: None,
            output_film_density_cmy: None,
            output_print_density_cmy: None,
            inject_film_density_cmy: None,
        }
    }
}

impl DebugParamsPatch {
    /// Overwrite each parameter for which this patch holds a value.
    pub fn apply_to(self, params: &mut DebugParams)
        ensures
            *final(params) == debug_params_patched(*old(params), self),
    {
        params.deactivate_spatial_effects = patch_value(params.deactivate_spatial_effects, self.deactivate_spatial_effects);
        params.deactivate_stochastic_effects = patch_value(params.deactivate_stochastic_effects, self.deactivate_stochastic_effects);
        params.print_timings = patch_value(params.print_timings, self.print_timings);
        params.debug_mode = patch_value(params.debug_mode, self.debug_mode);
        params.output_film_log_raw = patch_value(params.output_film_log_raw, self.output_film_log_raw);
        params.output_film_density_cmy = patch_value(params.output_film_density_cmy, self.output_film_density_cmy);
        params.output_print_density_cmy = patch_value(params.output_print_density_cmy, self.output_print_density_cmy);
        params.inject_film_density_cmy = patch_value(params.inject_film_density_cmy, self.inject_film_density_cmy);
    }
}

/// A partial update of `SimulationSettings`: each `Some` field replaces the
/// corresponding setting.
#[derive(Debug, Clone)]
pub struct SimulationSettingsPatch {
    pub rgb_to_raw_method: Option<String>,
    pub bandpass_hanatos2025: Option<bool>,
    pub use_enlarger_lut: Option<bool>,
    pub use_scanner_lut: Option<bool>,
    pub lut_resolution: Option<usize>,
    pub use_fast_stats: Option<bool>,
    pub preview_max_size: Option<usize>,
    pub preview_mode: Option<bool>,
    pub neutral_print_filters_from_database: Option<bool>,
}

/// The patch that changes nothing.
pub open spec fn is_empty_settings_patch(p: SimulationSettingsPatch) -> bool {
    &&& p.rgb_to_raw_method is None
    &&& p.bandpass_hanatos2025 is None
    &&& p.use_enlarger_lut is None
    &&& p.use_scanner_lut is None
    &&& p.lut_resolution is None
    &&& p.use_fast_stats is None
    &&& p.preview_max_size is None
    &&& p.preview_mode is None
    &&& p.neutral_print_filters_from_database is None
}

/// `new` is `old` with the fields that `patch` holds replaced (strings are
/// compared by their characters).
pub open spec fn settings_patched(old: SimulationSettings, patch: SimulationSettingsPatch, new: SimulationSettings) -> bool {
    &&& new.rgb_to_raw_method@ == patched_text(old.rgb_to_raw_method@, patch.rgb_to_raw_method)
    &&& new.bandpass_hanatos2025 == patched(old.bandpass_hanatos2025, patch.bandpass_hanatos2025)
    &&& new.use_enlarger_lut == patched(old.use_enlarger_lut, patch.use_enlarger_lut)
    &&& new.use_scanner_lut == patched(old.use_scanner_lut, patch.use_scanner_lut)
    &&& new.lut_resolution == patched(old.lut_resolution, patch.lut_resolution)
    &&& new.use_fast_stats == patched(old.use_fast_stats, patch.use_fast_stats)
    &&& new.preview_max_size == patched(old.preview_max_size, patch.preview_max_size)
    &&& new.preview_mode == patched(old.preview_mode, patch.preview_mode)
    &&& new.neutral_print_filters_from_database == patched(
        old.neutral_print_filters_from_database,
        patch.neutral_print_filters_from_database,
    )
}

impl Default for SimulationSettingsPatch {
    fn default() -> (r: Self)
        ensures
            is_empty_settings_patch(r),
    {
        SimulationSettingsPatch {
            rgb_to_raw_method: None,
            bandpass_hanatos2025: None,
            use_enlarger_lut: None,
            use_scanner_lut: None,
            lut_resolution: None,
            use_fast_stats: None,
            preview_max_size: None,
            preview_mode: None,
            neutral_print_filters_from_database: None,
        }
    }
}

impl SimulationSettingsPatch {
    /// Overwrite each setting for which this patch holds a value.
    pub fn apply_to(self, params: &mut SimulationSettings)
        ensures
            settings_patched(*old(params), self, *final(params)),
    {
        if let Some(v) = self.rgb_to_raw_method { params.rgb_to_raw_method = v; }
        params.bandpass_hanatos2025 = patch_value(params.bandpass_hanatos2025, self.bandpass_hanatos2025);
        params.use_enlarger_lut = patch_value(params.use_enlarger_lut, self.use_enlarger_lut);
        params.use_scanner_lut = patch_value(params.use_scanner_lut, self.use_scanner_lut);
        params.lut_resolution = patch_value(params.lut_resolution, self.lut_resolution);
        params.use_fast_stats = patch_value(params.use_fast_stats, self.use_fast_stats);
        params.preview_max_size = patch_value(params.preview_max_size, self.preview_max_size);
        params.preview_mode = patch_value(params.preview_mode, self.preview_mode);
        params.neutral_print_filters_from_database = patch_value(params.neutral_print_filters_from_database, self.neutral_print_filters_from_database);
    }
}

/// Applying the empty patch leaves the debug parameters unchanged.
pub proof fn lemma_empty_debug_patch_is_identity(p: DebugParams)
    ensures
        debug_params_patched(p, empty_debug_patch()) == p,
{
}

/// Applying the same debug patch twice has the effect of applying it once.
pub proof fn lemma_debug_patch_idempotent(p: DebugParams, patch: DebugParamsPatch)
    ensures
        debug_params_patched(debug_params_patched(p, patch), patch) == debug_params_patched(p, patch),
{
}

/// Applying two debug patches in turn equals applying one patch that holds
/// the second patch's values where it has them and the first's elsewhere.
pub proof fn lemma_debug_patches_compose(p: DebugParams, first: DebugParamsPatch, second: DebugParamsPatch)
    ensures
        debug_params_patched(debug_params_patched(p, first), second) == debug_params_patched(
            p,
            DebugParamsPatch {
                deactivate_spatial_effects: if second.deactivate_spatial_effects is Some { second.deactivate_spatial_effects } else { first.deactivate_spatial_effects },
                deactivate_stochastic_effects: if second.deactivate_stochastic_effects is Some { second.deactivate_stochastic_effects } else { first.deactivate_stochastic_effects },
                print_timings: if second.print_timings is Some { second.print_timings } else { first.print_timings },
                debug_mode: if second.debug_mode is Some { second.debug_mode } else { first.debug_mode },
                output_film_log_raw: if second.output_film_log_raw is Some { second.output_film_log_raw } else { first.output_film_log_raw },
                output_film_density_cmy: if second.output_film_density_cmy is Some { second.output_film_density_cmy } else { first.output_film_density_cmy },
                output_print_density_cmy: if second.output_print_density_cmy is Some { second.output_print_density_cmy } else { first.output_print_density_cmy },
                inject_film_density_cmy: if second.inject_film_density_cmy is Some { second.inject_film_density_cmy } else { first.inject_film_density_cmy },
            },
        ),
{
}

/// Applying the empty settings patch leaves every setting unchanged.
pub proof fn lemma_empty_settings_patch_is_identity(s: SimulationSettings, patch: SimulationSettingsPatch, new: SimulationSettings)
    requires
        is_empty_settings_patch(patch),
        settings_patched(s, patch, new),
    ensures
        new.rgb_to_raw_method@ == s.rgb_to_raw_method@,
        new.bandpass_hanatos2025 == s.bandpass_hanatos2025,
        new.use_enlarger_lut == s.use_enlarger_lut,
        new.use_scanner_lut == s.use_scanner_lut,
        new.lut_resolution == s.lut_resolution,
        new.use_fast_stats == s.use_fast_stats,
        new.preview_max_size == s.preview_max_size,
        new.preview_mode == s.preview_mode,
        new.neutral_print_filters_from_database == s.neutral_print_filters_from_database,
{
}

/// Applying the same settings patch a second time changes nothing more.
pub proof fn lemma_settings_patch_idempotent(
    s: SimulationSettings,
    patch: SimulationSettingsPatch,
    once: SimulationSettings,
    twice: SimulationSettings,
)
    requires
        settings_patched(s, patch, once),
        settings_patched(once, patch, twice),
    ensures
        settings_patched(s, patch, twice),
{
}

/// The patch holding `second`'s values where it has them and `first`'s
/// elsewhere.
pub open spec fn merged_settings_patch(first: SimulationSettingsPatch, second: SimulationSettingsPatch) -> SimulationSettingsPatch {
    SimulationSettingsPatch {
        rgb_to_raw_method: if second.rgb_to_raw_method is Some { second.rgb_to_raw_method } else { first.rgb_to_raw_method },
        bandpass_hanatos2025: if second.bandpass_hanatos2025 is Some { second.bandpass_hanatos2025 } else { first.bandpass_hanatos2025 },
        use_enlarger_lut: if second.use_enlarger_lut is Some { second.use_enlarger_lut } else { first.use_enlarger_lut },
        use_scanner_lut: if second.use_scanner_lut is Some { second.use_scanner_lut } else { first.use_scanner_lut },
        lut_resolution: if second.lut_resolution is Some { second.lut_resolution } else { first.lut_resolution },
        use_fast_stats: if second.use_fast_stats is Some { second.use_fast_stats } else { first.use_fast_stats },
        preview_max_size: if second.preview_max_size is Some { second.preview_max_size } else { first.preview_max_size },
        preview_mode: if second.preview_mode is Some { second.preview_mode } else { first.preview_mode },
        neutral_print_filters_from_database: if second.neutral_print_filters_from_database is Some {
            second.neutral_print_filters_from_database
        } else {
            first.neutral_print_filters_from_database
        },
    }
}

/// Applying two settings patches in turn has the effect of applying their
/// merge once, the second patch's values winning.
pub proof fn lemma_settings_patches_compose(
    s: SimulationSettings,
    first: SimulationSettingsPatch,
    second: SimulationSettingsPatch,
    mid: SimulationSettings,
    end: SimulationSettings,
)
    requires
        settings_patched(s, first, mid),
        settings_patched(mid, second, end),
    ensures
        settings_patched(s, merged_settings_patch(first, second), end),
{
}

/// A settings patch sets each field it holds to the held value and leaves
/// each field it does not hold as it was, field by field: what one field
/// becomes depends only on that field of the patch.
pub proof fn lemma_settings_patch_fields(old: SimulationSettings, patch: SimulationSettingsPatch, new: SimulationSettings)
    requires
        settings_patched(old, patch, new),
    ensures
        patch.rgb_to_raw_method matches Some(v) ==> new.rgb_to_raw_method@ == v@,
        patch.rgb_to_raw_method is None ==> new.rgb_to_raw_method@ == old.rgb_to_raw_method@,
        patch.bandpass_hanatos2025 matches Some(v) ==> new.bandpass_hanatos2025 == v,
        patch.bandpass_hanatos2025 is None ==> new.bandpass_hanatos2025 == old.bandpass_hanatos2025,
        patch.use_enlarger_lut matches Some(v) ==> new.use_enlarger_lut == v,
        patch.use_enlarger_lut is None ==> new.use_enlarger_lut == old.use_enlarger_lut,
        patch.use_scanner_lut matches Some(v) ==> new.use_scanner_lut == v,
        patch.use_scanner_lut is None ==> new.use_scanner_lut == old.use_scanner_lut,
        patch.lut_resolution matches Some(v) ==> new.lut_resolution == v,
        patch.lut_resolution is None ==> new.lut_resolution == old.lut_resolution,
        patch.use_fast_stats matches Some(v) ==> new.use_fast_stats == v,
        patch.use_fast_stats is None ==> new.use_fast_stats == old.use_fast_stats,
        patch.preview_max_size matches Some(v) ==> new.preview_max_size == v,
        patch.preview_max_size is None ==> new.preview_max_size == old.preview_max_size,
        patch.preview_mode matches Some(v) ==> new.preview_mode == v,
        patch.preview_mode is None ==> new.preview_mode == old.preview_mode,
        patch.neutral_print_filters_from_database matches Some(v) ==> new.neutral_print_filters_from_database == v,
        patch.neutral_print_filters_from_database is None ==> new.neutral_print_filters_from_database == old.neutral_print_filters_from_database,
{
}

/// A debug patch sets each switch it holds to the held value and leaves each
/// switch it does not hold as it was, field by field.
pub proof fn lemma_debug_patch_fields(old: DebugParams, patch: DebugParamsPatch)
    ensures
        patch.deactivate_spatial_effects matches Some(v) ==> debug_params_patched(old, patch).deactivate_spatial_effects == v,
        patch.deactivate_spatial_effects is None ==> debug_params_patched(old, patch).deactivate_spatial_effects == old.deactivate_spatial_effects,
        patch.deactivate_stochastic_effects matches Some(v) ==> debug_params_patched(old, patch).deactivate_stochastic_effects == v,
        patch.deactivate_stochastic_effects is None ==> debug_params_patched(old, patch).deactivate_stochastic_effects == old.deactivate_stochastic_effects,
        patch.print_timings matches Some(v) ==> debug_params_patched(old, patch).print_timings == v,
        patch.print_timings is None ==> debug_params_patched(old, patch).print_timings == old.print_timings,
        patch.debug_mode matches Some(v) ==> debug_params_patched(old, patch).debug_mode == v,
        patch.debug_mode is None ==> debug_params_patched(old, patch).debug_mode == old.debug_mode,
        patch.output_film_log_raw matches Some(v) ==> debug_params_patched(old, patch).output_film_log_raw == v,
        patch.output_film_log_raw is None ==> debug_params_patched(old, patch).output_film_log_raw == old.output_film_log_raw,
        patch.output_film_density_cmy matches Some(v) ==> debug_params_patched(old, patch).output_film_density_cmy == v,
        patch.output_film_density_cmy is None ==> debug_params_patched(old, patch).output_film_density_cmy == old.output_film_density_cmy,
        patch.output_print_density_cmy matches Some(v) ==> debug_params_patched(old, patch).output_print_density_cmy == v,
        patch.output_print_density_cmy is None ==> debug_params_patched(old, patch).output_print_density_cmy == old.output_print_density_cmy,
        patch.inject_film_density_cmy matches Some(v) ==> debug_params_patched(old, patch).inject_film_density_cmy == v,
        patch.inject_film_density_cmy is None ==> debug_params_patched(old, patch).inject_film_density_cmy == old.inject_film_density_cmy,
{
}

} // verus!
