//! Choice of graphics backends per platform.

use vstd::prelude::*;

verus! {

/// A set of graphics backends.
#[derive(Debug, Clone, Copy, PartialEq, Eq, Structural)]
pub struct GpuBackends {
    pub vulkan: bool,
    pub gl: bool,
    pub metal: bool,
    pub dx12: bool,
    pub browser_webgpu: bool,
}

/// The platform the daemon runs on.
#[derive(Debug, Clone, Copy, PartialEq, Eq, Structural)]
pub enum Platform {
    Windows,
    Linux,
    MacOs,
    Other,
}

/// The primary backends (Vulkan, Metal, DirectX 12, browser WebGPU).
pub open spec fn primary() -> GpuBackends {
    GpuBackends { vulkan: true, gl: false, metal: true, dx12: true, browser_webgpu: true }
}

/// The backends for a platform. Under CI the primary backends plus OpenGL
/// (a software fallback); otherwise DirectX 12 on Windows, Vulkan with an
/// OpenGL fallback on Linux, Metal on macOS, and every backend elsewhere.
pub open spec fn backends_for(ci: bool, platform: Platform) -> GpuBackends {
    if ci {
        GpuBackends { gl: true, ..primary() }
    } else {
        match platform {
            Platform::Windows => GpuBackends {
                vulkan: false,
                gl: false,
                metal: false,
                dx12: true,
                browser_webgpu: false,
            },
            Platform::Linux => GpuBackends {
                vulkan: true,
                gl: true,
                metal: false,
                dx12: false,
                browser_webgpu: false,
            },
            Platform::MacOs => GpuBackends {
                vulkan: false,
                gl: false,
                metal: true,
                dx12: false,
                browser_webgpu: false,
            },
            Platform::Other => GpuBackends {
                vulkan: true,
                gl: true,
                metal: true,
                dx12: true,
                browser_webgpu: true,
            },
        }
    }
}

/// Select the backends for a platform (`ci`: a CI environment was
/// detected).
pub fn select_backend_for(ci: bool, platform: Platform) -> (b: GpuBackends)
    ensures
        b == backends_for(ci, platform),
{
    if ci {
        return GpuBackends { vulkan: true, gl: true, metal: true, dx12: true, browser_webgpu: true };
    }
    match platform {
        Platform::Windows => GpuBackends {
            vulkan: false,
            gl: false,
            metal: false,
            dx12: true,
            browser_webgpu: false,
        },
        Platform::Linux => GpuBackends {
            vulkan: true,
            gl: true,
            metal: false,
            dx12: false,
            browser_webgpu: false,
        },
        Platform::MacOs => GpuBackends {
            vulkan: false,
            gl: false,
            metal: true,
            dx12: false,
            browser_webgpu: false,
        },
        Platform::Other => GpuBackends {
            vulkan: true,
            gl: true,
            metal: true,
            dx12: true,
            browser_webgpu: true,
        },
    }
}

/// Whether a CI environment is signalled by the `CI` or `GITHUB_ACTIONS`
/// variables being set.
pub fn is_ci(ci_var_set: bool, github_actions_var_set: bool) -> (b: bool)
    ensures
        b == (ci_var_set || github_actions_var_set),
{
    ci_var_set || github_actions_var_set
}

/// Under CI a software renderer (OpenGL) is always available, along with
/// every primary backend.
pub proof fn lemma_ci_has_software_fallback(platform: Platform)
    ensures
        backends_for(true, platform).gl,
        backends_for(true, platform).vulkan && backends_for(true, platform).metal && backends_for(
            true,
            platform,
        ).dx12,
{
}

} // verus!
