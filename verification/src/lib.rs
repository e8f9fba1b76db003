//! Data model and decision logic behind probing widgets: default values,
//! widget styles, the optional-value toggle, and the plan that the
//! `EguiProbe` derive follows to build its impls.

pub mod default;
pub mod probe_derive;
pub mod model;
pub mod option;
pub mod plan;
pub mod probe_fn;
pub mod style;

pub use default::ProbeDefault;
pub use option::{probe_option, EguiProbeOption};
pub use probe_fn::{probe_fn, EguiProbeFn};
pub use style::{BooleanStyle, Style, VariantsStyle};
