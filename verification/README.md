# rustwx_products

Planning, layout and bookkeeping rules of a weather-map product pipeline, verified with
Verus.

The library decides what is fetched, decoded, cropped, computed, drawn and reported. It
holds no floating-point number: grids are generic in the type of their values, and the
arithmetic on single values, the meteorological kernels, the projection of grids and the
painting of maps come as functions. The contracts say what these functions are handed and
what becomes of what they answer.

- `src/gridded` decodes surface and pressure analyses from the messages of model files,
  crops them, and prepares the volumes of the heavy computations.
- `src/derived` plans and computes the derived recipes, and the grids that a store keeps.
- `src/direct` plans, fetches, crops and draws the recipes that show model fields as they
  are.
- `src/ecape*.rs`, `src/heavy*.rs` and `src/hrrr*.rs` compute and report the heavy panels.

Files named `*_laws.rs`, `ecape_settled.rs` and `derived/store_agreement.rs` state what
holds of several functions together: that a cropped decode is the crop of the decode, that
giving winds up early or handing heights in changes no field, that stored grids are those
that the analyses give.

`app/` is ordinary Rust round the library: settings and files are read there, numbers are
computed in floating point, and maps are painted and written. `tests/` runs the library
from outside.
