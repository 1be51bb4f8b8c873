use monoterminal_master::backend::{is_ci, select_backend_for, GpuBackends, Platform};

const PRIMARY: GpuBackends = GpuBackends { vulkan: true, gl: false, metal: true, dx12: true, browser_webgpu: true };

fn contains(b: GpuBackends, sub: GpuBackends) -> bool {
    (!sub.vulkan || b.vulkan)
        && (!sub.gl || b.gl)
        && (!sub.metal || b.metal)
        && (!sub.dx12 || b.dx12)
        && (!sub.browser_webgpu || b.browser_webgpu)
}

#[test]
fn test_backend_selection_returns_platform_appropriate() {
    for platform in [Platform::Windows, Platform::Linux, Platform::MacOs, Platform::Other] {
        let backends = select_backend_for(true, platform);
        assert!(backends.gl, "CI environment should include GL backend for software rendering");
        assert!(contains(backends, PRIMARY), "CI environment should include PRIMARY backends");
    }
    let windows = select_backend_for(false, Platform::Windows);
    assert_eq!(windows, GpuBackends { vulkan: false, gl: false, metal: false, dx12: true, browser_webgpu: false });
    assert!(select_backend_for(false, Platform::Linux).vulkan);
    let mac = select_backend_for(false, Platform::MacOs);
    assert_eq!(mac, GpuBackends { vulkan: false, gl: false, metal: true, dx12: false, browser_webgpu: false });
}

#[test]
fn test_ci_environment_detection() {
    assert!(is_ci(true, false));
    assert!(is_ci(false, true));
    assert!(!is_ci(false, false));
    let backends = select_backend_for(is_ci(true, false), Platform::Windows);
    assert!(backends.gl, "CI=true should trigger GL backend");
}
