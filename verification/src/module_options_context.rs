use std::sync::Arc;
use vstd::prelude::*;

use crate::environment::EnvironmentVc;
use crate::transform::EcmascriptInputTransform;

verus! {

/// An immutable record of build-time feature toggles and transform lists.
/// Instances are constructed once, never mutated, and compared field by
/// field; the surrounding build system may collapse structurally equal
/// instances into one cached cell.
pub struct ModuleOptionsContext {
    pub enable_emotion: bool,
    pub enable_react_refresh: bool,
    pub enable_styled_components: bool,
    pub enable_styled_jsx: bool,
    pub enable_typescript_transform: bool,
    pub preset_env_versions: Option<EnvironmentVc>,
    pub custom_ecmascript_app_transforms: Vec<EcmascriptInputTransform>,
    pub custom_ecmascript_transforms: Vec<EcmascriptInputTransform>,
    pub placeholder_for_future_extensions: (),
}

/// The canonical empty configuration: every toggle off, no environment
/// versions, both transform sequences empty, the reserved field unit.
pub open spec fn is_default_configuration(c: ModuleOptionsContext) -> bool {
    &&& !c.enable_emotion
    &&& !c.enable_react_refresh
    &&& !c.enable_styled_components
    &&& !c.enable_styled_jsx
    &&& !c.enable_typescript_transform
    &&& c.preset_env_versions is None
    &&& c.custom_ecmascript_app_transforms@.len() == 0
    &&& c.custom_ecmascript_transforms@.len() == 0
    &&& c.placeholder_for_future_extensions == ()
}

/// Field-by-field equality of two configurations. The two transform
/// sequences are compared element-wise in order and never merged, so two
/// configurations holding the same transforms in a different order are not
/// the same configuration.
pub open spec fn same_configuration(a: ModuleOptionsContext, b: ModuleOptionsContext) -> bool {
    &&& a.enable_emotion == b.enable_emotion
    &&& a.enable_react_refresh == b.enable_react_refresh
    &&& a.enable_styled_components == b.enable_styled_components
    &&& a.enable_styled_jsx == b.enable_styled_jsx
    &&& a.enable_typescript_transform == b.enable_typescript_transform
    &&& a.preset_env_versions == b.preset_env_versions
    &&& a.custom_ecmascript_app_transforms@ == b.custom_ecmascript_app_transforms@
    &&& a.custom_ecmascript_transforms@ == b.custom_ecmascript_transforms@
    &&& a.placeholder_for_future_extensions == b.placeholder_for_future_extensions
}

/// Element-wise, order-sensitive comparison of two transform sequences.
fn transforms_equal(
    a: &Vec<EcmascriptInputTransform>,
    b: &Vec<EcmascriptInputTransform>,
) -> (r: bool)
    ensures
        r == (a@ == b@),
{
    if a.len() != b.len() {
        return false;
    }
    let mut i: usize = 0;
    while i < a.len()
        invariant
            a@.len() == b@.len(),
            i <= a@.len(),
            forall|j: int| 0 <= j < i ==> a@[j] == b@[j],
        decreases a@.len() - i,
    {
        if a[i] != b[i] {
            return false;
        }
        i += 1;
    }
    proof {
        assert(a@ =~= b@);
    }
    true
}

impl PartialEq for ModuleOptionsContext {
    fn eq(&self, other: &ModuleOptionsContext) -> (r: bool) {
        let toggles_equal = self.enable_emotion == other.enable_emotion
            && self.enable_react_refresh == other.enable_react_refresh
            && self.enable_styled_components == other.enable_styled_components
            && self.enable_styled_jsx == other.enable_styled_jsx
            && self.enable_typescript_transform == other.enable_typescript_transform;
        let env_equal = match (self.preset_env_versions, other.preset_env_versions) {
            (None, None) => true,
            (Some(x), Some(y)) => x == y,
            _ => false,
        };
        toggles_equal && env_equal && transforms_equal(
            &self.custom_ecmascript_app_transforms,
            &other.custom_ecmascript_app_transforms,
        ) && transforms_equal(
            &self.custom_ecmascript_transforms,
            &other.custom_ecmascript_transforms,
        )
    }
}

impl vstd::std_specs::cmp::PartialEqSpecImpl for ModuleOptionsContext {
    open spec fn obeys_eq_spec() -> bool {
        true
    }

    open spec fn eq_spec(&self, other: &ModuleOptionsContext) -> bool {
        same_configuration(*self, *other)
    }
}

impl Default for ModuleOptionsContext {
    /// Default construction cannot fail and never yields a toggle set to
    /// true, a present environment reference, or a non-empty sequence.
    fn default() -> (r: ModuleOptionsContext)
        ensures
            is_default_configuration(r),
    {
        ModuleOptionsContext {
            enable_emotion: false,
            enable_react_refresh: false,
            enable_styled_components: false,
            enable_styled_jsx: false,
            enable_typescript_transform: false,
            preset_env_versions: None,
            custom_ecmascript_app_transforms: Vec::new(),
            custom_ecmascript_transforms: Vec::new(),
            placeholder_for_future_extensions: (),
        }
    }
}

/// Law: two configurations constructed with identical field values, the two
/// transform sequences equal element-wise and in the same order, are
/// structurally equal, so a caching host may treat them as one retained
/// instance.
pub proof fn lemma_identical_fields_make_equal(a: ModuleOptionsContext, b: ModuleOptionsContext)
    requires
        a.enable_emotion == b.enable_emotion,
        a.enable_react_refresh == b.enable_react_refresh,
        a.enable_styled_components == b.enable_styled_components,
        a.enable_styled_jsx == b.enable_styled_jsx,
        a.enable_typescript_transform == b.enable_typescript_transform,
        a.preset_env_versions == b.preset_env_versions,
        a.custom_ecmascript_app_transforms@ == b.custom_ecmascript_app_transforms@,
        a.custom_ecmascript_transforms@ == b.custom_ecmascript_transforms@,
    ensures
        same_configuration(a, b),
{
}

/// Law: structurally equal configurations have identical field values, so
/// two configurations that differ in any field — a toggle, the presence or
/// identity of the environment reference, or either transform sequence,
/// including the same elements in a different order — are not equal.
pub proof fn lemma_equal_have_identical_fields(a: ModuleOptionsContext, b: ModuleOptionsContext)
    requires
        same_configuration(a, b),
    ensures
        a.enable_emotion == b.enable_emotion,
        a.enable_react_refresh == b.enable_react_refresh,
        a.enable_styled_components == b.enable_styled_components,
        a.enable_styled_jsx == b.enable_styled_jsx,
        a.enable_typescript_transform == b.enable_typescript_transform,
        a.preset_env_versions == b.preset_env_versions,
        a.custom_ecmascript_app_transforms@ == b.custom_ecmascript_app_transforms@,
        a.custom_ecmascript_transforms@ == b.custom_ecmascript_transforms@,
{
}

/// Law: default construction is deterministic up to structural equality.
/// However two default configurations were obtained — racing constructions
/// in concurrent contexts included — they are structurally equal, so
/// collapsing them to one shared instance is always safe.
pub proof fn lemma_default_configurations_agree(a: ModuleOptionsContext, b: ModuleOptionsContext)
    requires
        is_default_configuration(a),
        is_default_configuration(b),
    ensures
        same_configuration(a, b),
{
    assert(a.custom_ecmascript_app_transforms@ =~= b.custom_ecmascript_app_transforms@);
    assert(a.custom_ecmascript_transforms@ =~= b.custom_ecmascript_transforms@);
}

/// Handle to a cached, immutable configuration instance: cheap to copy,
/// never implying ownership transfer, and interchangeable with any other
/// handle whose instance is structurally equal.
pub struct ModuleOptionsContextVc {
    cell: Arc<ModuleOptionsContext>,
}

impl ModuleOptionsContextVc {
    /// The configuration instance this handle refers to.
    pub closed spec fn value(self) -> ModuleOptionsContext {
        *self.cell
    }

    /// Stores a configuration value in a fresh cell and hands back a handle
    /// to it. The value is kept verbatim: in particular the two transform
    /// sequences keep their exact element order and are never merged.
    pub fn cell(value: ModuleOptionsContext) -> (r: ModuleOptionsContextVc)
        ensures
            r.value() == value,
    {
        ModuleOptionsContextVc { cell: Arc::new(value) }
    }

    /// A handle to the canonical empty configuration. Construction is pure,
    /// side-effect-free and cannot fail, so any number of calls, from any
    /// number of execution contexts, observe structurally equal results.
    pub fn default() -> (r: ModuleOptionsContextVc)
        ensures
            is_default_configuration(r.value()),
    {
        ModuleOptionsContextVc::cell(Default::default())
    }

    /// Read access to the shared instance.
    pub fn get(&self) -> (r: &ModuleOptionsContext)
        ensures
            *r == self.value(),
    {
        &*self.cell
    }
}

impl Clone for ModuleOptionsContextVc {
    /// Copying a handle shares the same instance rather than duplicating it.
    fn clone(&self) -> (r: ModuleOptionsContextVc)
        ensures
            r.value() == self.value(),
    {
        ModuleOptionsContextVc { cell: self.cell.clone() }
    }
}

impl PartialEq for ModuleOptionsContextVc {
    fn eq(&self, other: &ModuleOptionsContextVc) -> (r: bool) {
        *self.cell == *other.cell
    }
}

impl vstd::std_specs::cmp::PartialEqSpecImpl for ModuleOptionsContextVc {
    open spec fn obeys_eq_spec() -> bool {
        true
    }

    open spec fn eq_spec(&self, other: &ModuleOptionsContextVc) -> bool {
        same_configuration(self.value(), other.value())
    }
}

impl Default for ModuleOptionsContextVc {
    /// The same canonical empty configuration, reachable through the
    /// standard default constructor.
    fn default() -> (r: ModuleOptionsContextVc)
        ensures
            is_default_configuration(r.value()),
    {
        ModuleOptionsContextVc::default()
    }
}

} // verus!
