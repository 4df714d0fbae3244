use wgpu_circles::device::{DeviceRequest, MemoryHints, DX12};

#[test]
fn request_is_for_directx_alone() {
    assert_eq!(
        DeviceRequest::new(),
        DeviceRequest {
            backends: DX12,
            instance_flags: 0,
            power_preference: None,
            force_fallback_adapter: false,
            label: None,
            required_features: [0, 0],
            memory_hints: MemoryHints::Performance,
        }
    );
}

#[test]
fn flags_of_the_request() {
    assert_eq!(DX12, wgpu::Backends::DX12.bits());
    assert_eq!(DeviceRequest::new().instance_flags, wgpu::InstanceFlags::empty().bits());
    assert_eq!(DeviceRequest::new().required_features, wgpu::Features::empty().bits().0);
    assert_eq!(wgpu::PowerPreference::default(), wgpu::PowerPreference::None);
    assert!(matches!(wgpu::MemoryHints::default(), wgpu::MemoryHints::Performance));
}
