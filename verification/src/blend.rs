//! Spine blend modes and the GPU blend state each one is drawn with.

use vstd::prelude::*;

verus! {

/// Spine's slot blend modes, as the material and its pipeline key carry them.
#[derive(Copy, Clone, Hash, Eq, PartialEq, Default, Debug, Structural)]
pub enum SpineBlendMode {
    #[default]
    Normal,
    Additive,
    Multiply,
    Screen,
}

/// The blend factors that the Spine blend states use (a subset of the GPU
/// API's factors, with the same meaning).
#[derive(Copy, Clone, Hash, Eq, PartialEq, Debug, Structural)]
pub enum BlendFactor {
    /// `1`
    One,
    /// The destination colour.
    Dst,
    /// `1 - source colour`.
    OneMinusSrc,
    /// `1 - source alpha`.
    OneMinusSrcAlpha,
}

/// How the weighted source and destination are combined.
#[derive(Copy, Clone, Hash, Eq, PartialEq, Debug, Structural)]
pub enum BlendOperation {
    Add,
    Subtract,
    ReverseSubtract,
    Min,
    Max,
}

/// Blend equation of one channel group (colour or alpha).
#[derive(Copy, Clone, Hash, Eq, PartialEq, Debug, Structural)]
pub struct BlendComponent {
    pub src_factor: BlendFactor,
    pub dst_factor: BlendFactor,
    pub operation: BlendOperation,
}

/// Blend equations for colour and for alpha.
#[derive(Copy, Clone, Hash, Eq, PartialEq, Debug, Structural)]
pub struct BlendState {
    pub color: BlendComponent,
    pub alpha: BlendComponent,
}

/// Pipeline specialisation key of a Spine material: one pipeline per blend
/// mode.
#[derive(Copy, Clone, Hash, Eq, PartialEq, Debug, Structural)]
pub struct SpineMaterialKey {
    pub blend_mode: SpineBlendMode,
}

/// `src * src_factor + dst * dst_factor`.
pub open spec fn add_component(src_factor: BlendFactor, dst_factor: BlendFactor) -> BlendComponent {
    BlendComponent { src_factor, dst_factor, operation: BlendOperation::Add }
}

/// Colour blend equation of each mode over premultiplied-alpha textures.
pub open spec fn spec_color_component(mode: SpineBlendMode) -> BlendComponent {
    match mode {
        SpineBlendMode::Normal => add_component(BlendFactor::One, BlendFactor::OneMinusSrcAlpha),
        SpineBlendMode::Additive => add_component(BlendFactor::One, BlendFactor::One),
        SpineBlendMode::Multiply => add_component(BlendFactor::Dst, BlendFactor::OneMinusSrcAlpha),
        SpineBlendMode::Screen => add_component(BlendFactor::One, BlendFactor::OneMinusSrc),
    }
}

/// Alpha blend equation of each mode: the colour one for Normal and
/// Additive, its own for Multiply and Screen.
pub open spec fn spec_alpha_component(mode: SpineBlendMode) -> BlendComponent {
    match mode {
        SpineBlendMode::Normal => spec_color_component(mode),
        SpineBlendMode::Additive => spec_color_component(mode),
        SpineBlendMode::Multiply => add_component(
            BlendFactor::OneMinusSrcAlpha,
            BlendFactor::OneMinusSrcAlpha,
        ),
        SpineBlendMode::Screen => add_component(BlendFactor::OneMinusSrc, BlendFactor::OneMinusSrc),
    }
}

/// The blend state of a mode.
pub open spec fn spec_blend_state(mode: SpineBlendMode) -> BlendState {
    BlendState { color: spec_color_component(mode), alpha: spec_alpha_component(mode) }
}

impl SpineBlendMode {
    /// Blend state for premultiplied-alpha atlases, by Spine blend mode.
    pub fn blend_state(self) -> (r: BlendState)
        ensures
            r == spec_blend_state(self),
            r.color.operation == BlendOperation::Add && r.alpha.operation == BlendOperation::Add,
            self == SpineBlendMode::Normal ==> r.color.src_factor == BlendFactor::One
                && r.color.dst_factor == BlendFactor::OneMinusSrcAlpha && r.alpha == r.color,
            self == SpineBlendMode::Additive ==> r.color.src_factor == BlendFactor::One
                && r.color.dst_factor == BlendFactor::One && r.alpha == r.color,
            self == SpineBlendMode::Multiply ==> r.color.src_factor == BlendFactor::Dst
                && r.color.dst_factor == BlendFactor::OneMinusSrcAlpha && r.alpha.src_factor
                == BlendFactor::OneMinusSrcAlpha && r.alpha.dst_factor
                == BlendFactor::OneMinusSrcAlpha,
            self == SpineBlendMode::Screen ==> r.color.src_factor == BlendFactor::One
                && r.color.dst_factor == BlendFactor::OneMinusSrc && r.alpha.src_factor
                == BlendFactor::OneMinusSrc && r.alpha.dst_factor == BlendFactor::OneMinusSrc,
    {
        let color = match self {
            SpineBlendMode::Normal => BlendComponent {
                src_factor: BlendFactor::One,
                dst_factor: BlendFactor::OneMinusSrcAlpha,
                operation: BlendOperation::Add,
            },
            SpineBlendMode::Additive => BlendComponent {
                src_factor: BlendFactor::One,
                dst_factor: BlendFactor::One,
                operation: BlendOperation::Add,
            },
            SpineBlendMode::Multiply => BlendComponent {
                src_factor: BlendFactor::Dst,
                dst_factor: BlendFactor::OneMinusSrcAlpha,
                operation: BlendOperation::Add,
            },
            SpineBlendMode::Screen => BlendComponent {
                src_factor: BlendFactor::One,
                dst_factor: BlendFactor::OneMinusSrc,
                operation: BlendOperation::Add,
            },
        };
        let alpha = match self {
            SpineBlendMode::Normal | SpineBlendMode::Additive => color,
            SpineBlendMode::Multiply => BlendComponent {
                src_factor: BlendFactor::OneMinusSrcAlpha,
                dst_factor: BlendFactor::OneMinusSrcAlpha,
                operation: BlendOperation::Add,
            },
            SpineBlendMode::Screen => BlendComponent {
                src_factor: BlendFactor::OneMinusSrc,
                dst_factor: BlendFactor::OneMinusSrc,
                operation: BlendOperation::Add,
            },
        };
        BlendState { color, alpha }
    }
}

/// Every blend mode combines source and destination by addition, for colour
/// and for alpha alike.
pub proof fn lemma_blend_states_add(mode: SpineBlendMode)
    ensures
        spec_blend_state(mode).color.operation == BlendOperation::Add,
        spec_blend_state(mode).alpha.operation == BlendOperation::Add,
{
}

/// Normal and Additive blend alpha exactly as they blend colour.
pub proof fn lemma_alpha_follows_color(mode: SpineBlendMode)
    requires
        mode == SpineBlendMode::Normal || mode == SpineBlendMode::Additive,
    ensures
        spec_blend_state(mode).alpha == spec_blend_state(mode).color,
{
}

/// Distinct blend modes are drawn with distinct blend states, so the
/// pipeline cache holds exactly one pipeline per mode.
pub proof fn lemma_blend_state_injective(a: SpineBlendMode, b: SpineBlendMode)
    requires
        a != b,
    ensures
        spec_blend_state(a) != spec_blend_state(b),
{
}

} // verus!
