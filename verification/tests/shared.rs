use crystal::Binding;
use crystal::ClearColor;
use crystal::PipelineDesc;
use crystal::TextureFilter;
use crystal::is_power_of_2;

#[test]
fn powers_of_two_are_recognized() {
    assert!(is_power_of_2(1));
    assert!(is_power_of_2(2));
    assert!(is_power_of_2(4));
    assert!(is_power_of_2(1024));
    assert!(is_power_of_2(1 << 31));
}

#[test]
fn non_powers_of_two_are_rejected() {
    assert!(!is_power_of_2(3));
    assert!(!is_power_of_2(6));
    assert!(!is_power_of_2(1000));
    assert!(!is_power_of_2(u32::MAX));
    assert!(!is_power_of_2((1 << 31) + 1));
}

#[test]
fn pipeline_desc_carries_its_bindings() {
    let bindings = [
        Binding { attribute: 0, buffer: 0, offset: 0, stride: 16, instanced: false },
        Binding { attribute: 1, buffer: 1, offset: 16, stride: 32, instanced: true },
    ];
    let desc = PipelineDesc {
        depth_test: true,
        depth_write: false,
        alpha_blend: true,
        bindings: &bindings,
    };
    assert_eq!(desc.bindings.len(), 2);
    assert_eq!(desc.bindings[1].attribute, 1);
    assert_eq!(desc.bindings[1].stride, 32);
    assert!(desc.bindings[1].instanced);
    let copy = desc;
    assert!(copy.depth_test && !copy.depth_write && copy.alpha_blend);
}

#[test]
fn bindings_compare_by_fields() {
    let a = Binding { attribute: 2, buffer: 0, offset: 8, stride: 24, instanced: false };
    let b = Binding { attribute: 2, buffer: 0, offset: 8, stride: 24, instanced: false };
    let c = Binding { attribute: 3, buffer: 0, offset: 8, stride: 24, instanced: false };
    assert_eq!(a, b);
    assert_ne!(a, c);
}

#[test]
fn clear_color_holds_bit_patterns() {
    let black_opaque = ClearColor {
        red_bits: 0f32.to_bits(),
        green_bits: 0f32.to_bits(),
        blue_bits: 0f32.to_bits(),
        alpha_bits: 1f32.to_bits(),
    };
    assert_eq!(black_opaque.red_bits, 0);
    assert_eq!(black_opaque.alpha_bits, 0x3f80_0000);
}

#[test]
fn texture_filters_are_distinct() {
    assert_eq!(TextureFilter::Nearest, TextureFilter::Nearest);
    assert_ne!(TextureFilter::Nearest, TextureFilter::Linear);
    assert_ne!(TextureFilter::Linear, TextureFilter::MipMap);
}
