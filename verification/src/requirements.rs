//! What the bootstrap loaders require of the Vulkan instance and device (layers and
//! extensions), and how the validation layer's messages are logged.
use vstd::prelude::*;
use crate::bootstrap::BootstrapLoaderKind;
use crate::dependency::string_views;
use crate::vulkan::{
    DEBUG_SEVERITY_ERROR, DEBUG_SEVERITY_INFO, DEBUG_SEVERITY_WARNING,
};

verus! {

/// The four lists of names the loaders add to.
#[derive(Clone, Copy, Debug, PartialEq, Eq, Structural)]
pub enum RequirementKind {
    InstanceLayer,
    InstanceExtension,
    DeviceLayer,
    DeviceExtension,
}

/// The name of the Khronos validation layer.
pub open spec fn validation_layer() -> Seq<char> {
    "VK_LAYER_KHRONOS_validation"@
}

/// The name of the debug utils instance extension.
pub open spec fn debug_utils_extension() -> Seq<char> {
    "VK_EXT_debug_utils"@
}

/// The name of the swapchain device extension.
pub open spec fn swapchain_extension() -> Seq<char> {
    "VK_KHR_swapchain"@
}

/// The names a loader adds to one of the lists: the validation loader asks for the
/// validation layer on the instance and the device and for the debug utils extension; the
/// swapchain loader asks for the swapchain extension; the others ask for nothing.
pub open spec fn loader_requirements(kind: BootstrapLoaderKind, req: RequirementKind) -> Seq<
    Seq<char>,
> {
    match (kind, req) {
        (BootstrapLoaderKind::Validation, RequirementKind::InstanceLayer) => seq![validation_layer()],
        (BootstrapLoaderKind::Validation, RequirementKind::InstanceExtension) => seq![
            debug_utils_extension(),
        ],
        (BootstrapLoaderKind::Validation, RequirementKind::DeviceLayer) => seq![validation_layer()],
        (BootstrapLoaderKind::Swapchain, RequirementKind::DeviceExtension) => seq![
            swapchain_extension(),
        ],
        _ => seq![],
    }
}

/// The names all `loaders` add to one list, loader after loader.
pub open spec fn all_requirements(loaders: Seq<BootstrapLoaderKind>, req: RequirementKind) -> Seq<
    Seq<char>,
>
    decreases loaders.len(),
{
    if loaders.len() == 0 {
        seq![]
    } else {
        all_requirements(loaders.drop_last(), req) + loader_requirements(loaders.last(), req)
    }
}

impl BootstrapLoaderKind {
    /// The names this loader adds to one of the lists.
    pub fn requirements(&self, req: RequirementKind) -> (r: Vec<String>)
        ensures
            string_views(r@) == loader_requirements(*self, req),
    {
        let mut r: Vec<String> = Vec::new();
        match (self, req) {
            (BootstrapLoaderKind::Validation, RequirementKind::InstanceLayer) => {
                r.push(String::from_str("VK_LAYER_KHRONOS_validation"));
            },
            (BootstrapLoaderKind::Validation, RequirementKind::InstanceExtension) => {
                r.push(String::from_str("VK_EXT_debug_utils"));
            },
            (BootstrapLoaderKind::Validation, RequirementKind::DeviceLayer) => {
                r.push(String::from_str("VK_LAYER_KHRONOS_validation"));
            },
            (BootstrapLoaderKind::Swapchain, RequirementKind::DeviceExtension) => {
                r.push(String::from_str("VK_KHR_swapchain"));
            },
            _ => {},
        }
        assert(string_views(r@) =~= loader_requirements(*self, req));
        r
    }
}

/// The names to request for one list: those already there (the window's required
/// instance extensions, for instance), then what each loader adds, in the loaders' order.
pub fn collect_requirements(
    initial: Vec<String>,
    loaders: &Vec<BootstrapLoaderKind>,
    req: RequirementKind,
) -> (r: Vec<String>)
    ensures
        string_views(r@) == string_views(initial@) + all_requirements(loaders@, req),
{
    let mut r = initial;
    let mut i: usize = 0;
    while i < loaders.len()
        invariant
            i <= loaders@.len(),
            string_views(r@) == string_views(initial@) + all_requirements(
                loaders@.subrange(0, i as int),
                req,
            ),
        decreases loaders@.len() - i,
    {
        let mut more = loaders[i].requirements(req);
        let ghost before = r@;
        r.append(&mut more);
        proof {
            let prefix = loaders@.subrange(0, i as int + 1);
            assert(prefix.drop_last() =~= loaders@.subrange(0, i as int));
            assert(prefix.last() == loaders@[i as int]);
            assert(string_views(r@) =~= string_views(before) + loader_requirements(
                loaders@[i as int],
                req,
            ));
            assert(string_views(initial@) + all_requirements(loaders@.subrange(0, i as int), req)
                + loader_requirements(loaders@[i as int], req) =~= string_views(initial@)
                + all_requirements(prefix, req));
        }
        i = i + 1;
    }
    assert(loaders@.subrange(0, loaders@.len() as int) =~= loaders@);
    r
}

/// The level a message of the validation layer is logged at.
#[derive(Clone, Copy, Debug, PartialEq, Eq, Structural)]
pub enum DebugLogLevel {
    Error,
    Warn,
    Debug,
    Trace,
}

/// The level for a message of the given severity: errors as errors, warnings as warnings,
/// information as debug output and anything less severe as trace output. Severities are
/// compared as numbers, so a value between two severities counts as the lower one.
pub fn debug_message_level(severity: u32) -> (r: DebugLogLevel)
    ensures
        r == if severity >= DEBUG_SEVERITY_ERROR {
            DebugLogLevel::Error
        } else if severity >= DEBUG_SEVERITY_WARNING {
            DebugLogLevel::Warn
        } else if severity >= DEBUG_SEVERITY_INFO {
            DebugLogLevel::Debug
        } else {
            DebugLogLevel::Trace
        },
{
    if severity >= DEBUG_SEVERITY_ERROR {
        DebugLogLevel::Error
    } else if severity >= DEBUG_SEVERITY_WARNING {
        DebugLogLevel::Warn
    } else if severity >= DEBUG_SEVERITY_INFO {
        DebugLogLevel::Debug
    } else {
        DebugLogLevel::Trace
    }
}

} // verus!
