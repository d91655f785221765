//! A memoized configuration value for an incremental build pipeline: an
//! immutable record of feature toggles and transform lists, exposed through
//! a cheaply copied handle, compared structurally so that equal
//! configurations can share one cached instance.

mod environment;
mod module_options_context;
mod transform;

pub use environment::EnvironmentVc;
pub use module_options_context::ModuleOptionsContext;
pub use module_options_context::ModuleOptionsContextVc;
pub use module_options_context::is_default_configuration;
pub use module_options_context::lemma_default_configurations_agree;
pub use module_options_context::lemma_equal_have_identical_fields;
pub use module_options_context::lemma_identical_fields_make_equal;
pub use module_options_context::same_configuration;
pub use transform::EcmascriptInputTransform;
