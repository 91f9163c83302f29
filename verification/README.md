# spectralfilm

The verified core of a spectral film-simulation engine: the parts of the
engine that decide, parse and check, each with a contract proved by Verus.

- `src/model`: film stock and print paper names, diffusion-filter families,
  optical filter catalogue, illuminant labels.
- `src/profiles`: the built-in profile list and the consistency checks of a
  loaded profile (table lengths and labels).
- `src/runtime`: debug switches, simulation settings and their patches; the
  sequence of stages a run goes through; the stock-specific presets.
- `src/utils`: byte and string helpers, RGB buffer geometry, the `.npy` and
  coefficient-table headers of the spectral upsampler, colour-space names,
  crop windows and mirrored padding indices.

`app/` holds what the library leaves to its host: JSON forms of the
parameters and profiles, reading profile files, and the floating-point image
arithmetic (colour conversion, filtering, resampling, random grain draws).

`tests/` runs the library on concrete values.
