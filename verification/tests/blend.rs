use dm_spine_bevy::blend::{
    BlendComponent, BlendFactor, BlendOperation, BlendState, SpineBlendMode, SpineMaterialKey,
};

fn comp(src: BlendFactor, dst: BlendFactor) -> BlendComponent {
    BlendComponent { src_factor: src, dst_factor: dst, operation: BlendOperation::Add }
}

#[test]
fn normal_blend_is_premultiplied_over() {
    let c = comp(BlendFactor::One, BlendFactor::OneMinusSrcAlpha);
    assert_eq!(SpineBlendMode::Normal.blend_state(), BlendState { color: c, alpha: c });
}

#[test]
fn additive_blend_adds() {
    let c = comp(BlendFactor::One, BlendFactor::One);
    assert_eq!(SpineBlendMode::Additive.blend_state(), BlendState { color: c, alpha: c });
}

#[test]
fn multiply_blend() {
    assert_eq!(
        SpineBlendMode::Multiply.blend_state(),
        BlendState {
            color: comp(BlendFactor::Dst, BlendFactor::OneMinusSrcAlpha),
            alpha: comp(BlendFactor::OneMinusSrcAlpha, BlendFactor::OneMinusSrcAlpha),
        }
    );
}

#[test]
fn screen_blend() {
    assert_eq!(
        SpineBlendMode::Screen.blend_state(),
        BlendState {
            color: comp(BlendFactor::One, BlendFactor::OneMinusSrc),
            alpha: comp(BlendFactor::OneMinusSrc, BlendFactor::OneMinusSrc),
        }
    );
}

#[test]
fn every_mode_adds_and_modes_differ() {
    let modes = [
        SpineBlendMode::Normal,
        SpineBlendMode::Additive,
        SpineBlendMode::Multiply,
        SpineBlendMode::Screen,
    ];
    for (i, a) in modes.iter().enumerate() {
        let s = a.blend_state();
        assert_eq!(s.color.operation, BlendOperation::Add);
        assert_eq!(s.alpha.operation, BlendOperation::Add);
        for b in &modes[i + 1..] {
            assert_ne!(s, b.blend_state());
        }
    }
}

#[test]
fn default_mode_is_normal() {
    assert_eq!(SpineBlendMode::default(), SpineBlendMode::Normal);
    let key = SpineMaterialKey { blend_mode: SpineBlendMode::Screen };
    assert_eq!(key.blend_mode.blend_state(), SpineBlendMode::Screen.blend_state());
}
