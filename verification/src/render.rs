use vstd::prelude::*;
use crate::scene::{Mesh, SceneMaterial, SceneParameter, ShadingType};
use crate::text::str_equal;

verus! {

// Frame -------------------------------------------------------------------------------------

/// A pass of the main rendering function, in the order it is recorded.
#[derive(Clone, Copy, Debug, PartialEq, Eq, Structural)]
pub enum FramePass {
    /// Forward Phong shading into the intermediate texture.
    ForwardShading,
    /// G-buffer writing and deferred shading into the intermediate texture.
    DifferedShading,
    /// Bloom into the second intermediate texture.
    Bloom,
    /// Copy of the second intermediate texture back into the first.
    CopyBloomResult,
    /// Composite of the intermediate texture onto the swapchain.
    Composite,
    /// Debug line grid over the swapchain.
    LineGrid,
}

/// The passes of a frame: the main pass of the scene's shading type, bloom
/// and its copy-back when bloom is on, the composite pass when it is on, and
/// the line grid last.
pub open spec fn frame_passes(p: SceneParameter) -> Seq<FramePass> {
    let main = match p.scene_shading_type {
        ShadingType::Forward => FramePass::ForwardShading,
        ShadingType::Differed => FramePass::DifferedShading,
    };
    seq![main] + (if p.is_use_bloom {
        seq![FramePass::Bloom, FramePass::CopyBloomResult]
    } else {
        Seq::empty()
    }) + (if p.is_use_composite {
        seq![FramePass::Composite]
    } else {
        Seq::empty()
    }) + seq![FramePass::LineGrid]
}

/// Decides the passes that the main rendering function records for a frame.
pub fn plan_rendering_main(parameters: &SceneParameter) -> (passes: Vec<FramePass>)
    ensures
        passes@ == frame_passes(*parameters),
{
    let mut passes: Vec<FramePass> = Vec::new();
    match parameters.scene_shading_type {
        ShadingType::Forward => passes.push(FramePass::ForwardShading),
        ShadingType::Differed => passes.push(FramePass::DifferedShading),
    }
    if parameters.is_use_bloom {
        passes.push(FramePass::Bloom);
        passes.push(FramePass::CopyBloomResult);
    }
    if parameters.is_use_composite {
        passes.push(FramePass::Composite);
    }
    passes.push(FramePass::LineGrid);
    assert(passes@ =~= frame_passes(*parameters));
    passes
}

/// Every frame shades the scene exactly once, first, with the scene's
/// shading type, draws the line grid last, and copies the bloom result back
/// right after the bloom pass.
pub proof fn lemma_frame_shape(p: SceneParameter)
    ensures
        frame_passes(p)[0] == (match p.scene_shading_type {
            ShadingType::Forward => FramePass::ForwardShading,
            ShadingType::Differed => FramePass::DifferedShading,
        }),
        forall|i: int|
            1 <= i < frame_passes(p).len() ==> #[trigger] frame_passes(p)[i]
                != FramePass::ForwardShading && frame_passes(p)[i] != FramePass::DifferedShading,
        frame_passes(p).last() == FramePass::LineGrid,
        forall|i: int|
            0 <= i < frame_passes(p).len() && #[trigger] frame_passes(p)[i] == FramePass::Bloom
                ==> i + 1 < frame_passes(p).len() && frame_passes(p)[i + 1]
                == FramePass::CopyBloomResult,
        frame_passes(p).contains(FramePass::Bloom) <==> p.is_use_bloom,
        frame_passes(p).contains(FramePass::Composite) <==> p.is_use_composite,
{
    let s = frame_passes(p);
    if p.is_use_bloom {
        assert(s[1] == FramePass::Bloom);
    }
    if p.is_use_composite {
        assert(s[s.len() - 2] == FramePass::Composite);
    }
}

/// The bloom result is copied back only when bloom ran, and always right
/// after it: without bloom the second intermediate texture (stale or empty)
/// is never copied over the freshly shaded scene.
pub proof fn lemma_copy_back_only_after_bloom(p: SceneParameter)
    ensures
        frame_passes(p).contains(FramePass::CopyBloomResult) <==> p.is_use_bloom,
        frame_passes(p).contains(FramePass::Bloom) <==> p.is_use_bloom,
        forall|i: int|
            0 <= i < frame_passes(p).len() && #[trigger] frame_passes(p)[i]
                == FramePass::CopyBloomResult ==> i >= 1 && frame_passes(p)[i - 1] == FramePass::Bloom,
        !p.is_use_bloom ==> frame_passes(p).len() == if p.is_use_composite {
            3int
        } else {
            2int
        },
{
    let s = frame_passes(p);
    if p.is_use_bloom {
        assert(s[2] == FramePass::CopyBloomResult);
        assert(s[1] == FramePass::Bloom);
    } else {
        assert forall|i: int| 0 <= i < s.len() implies s[i] != FramePass::CopyBloomResult
            && s[i] != FramePass::Bloom by {
        }
    }
}

// Shaders -----------------------------------------------------------------------------------

/// The shader contexts that meshes are drawn with.
#[derive(Clone, Copy, Debug, PartialEq, Eq, Structural)]
pub enum ShaderKind {
    Phong,
    DifferedGBuffer,
}

/// The shader context created for a shader name: Phong for "Phong", the
/// G-buffer writer for any other name.
pub fn shader_kind_for_name(name: &str) -> (kind: ShaderKind)
    ensures
        kind == (if name@ == "Phong"@ {
            ShaderKind::Phong
        } else {
            ShaderKind::DifferedGBuffer
        }),
{
    if str_equal(name, "Phong") {
        ShaderKind::Phong
    } else {
        ShaderKind::DifferedGBuffer
    }
}

/// The pipelines of the deferred shading pass.
#[derive(Clone, Copy, Debug, PartialEq, Eq, Structural)]
pub enum DifferedPipeline {
    Render,
    Debug,
}

/// The deferred shading pass shades with the render pipeline when no debug
/// buffer is selected, and with the debug pipeline otherwise.
pub fn differed_pipeline(differed_debug_type: u8) -> (p: DifferedPipeline)
    ensures
        p == (if differed_debug_type == 0 {
            DifferedPipeline::Render
        } else {
            DifferedPipeline::Debug
        }),
{
    if differed_debug_type == 0 {
        DifferedPipeline::Render
    } else {
        DifferedPipeline::Debug
    }
}

/// A mesh's uniform buffer and bind groups must be (re)created when one of
/// them is missing or when the buffer's size differs from the shader's
/// uniform size.
pub open spec fn needs_initialize(
    uniform_buffer_size: Option<u64>,
    has_bind_group: bool,
    has_bind_group_2: bool,
    uniform_size: u64,
) -> bool {
    ||| uniform_buffer_size is None
    ||| !has_bind_group
    ||| !has_bind_group_2
    ||| (uniform_buffer_size is Some && uniform_buffer_size != Some(uniform_size))
}

/// Decides whether a mesh's shading resources must be (re)created for a
/// shader, given the size of its uniform buffer (if it has one), whether its
/// two bind groups exist, and the shader's uniform size.
pub fn is_need_initialize(
    uniform_buffer_size: Option<u64>,
    has_bind_group: bool,
    has_bind_group_2: bool,
    uniform_size: u64,
) -> (r: bool)
    ensures
        r == needs_initialize(uniform_buffer_size, has_bind_group, has_bind_group_2, uniform_size),
{
    let mut need: bool = false;
    need = need || uniform_buffer_size.is_none();
    need = need || !has_bind_group;
    need = need || !has_bind_group_2;
    need = need || match uniform_buffer_size {
        Some(size) => size != uniform_size,
        None => false,
    };
    need
}

/// Once a mesh's resources have been created for a shader, later frames with
/// the same shader keep them; switching to a shader whose uniform size
/// differs recreates them, and so does a missing buffer or bind group.
pub proof fn lemma_initialization_is_stable(uniform_size: u64, other_size: u64)
    ensures
        forall|b1: bool, b2: bool| needs_initialize(None, b1, b2, uniform_size),
        forall|s: Option<u64>, b2: bool| needs_initialize(s, false, b2, uniform_size),
        forall|s: Option<u64>, b1: bool| needs_initialize(s, b1, false, uniform_size),
        !needs_initialize(Some(uniform_size), true, true, uniform_size),
        other_size != uniform_size ==> needs_initialize(Some(uniform_size), true, true, other_size),
{
}

// Bloom -------------------------------------------------------------------------------------

/// The most levels the bloom pyramid has.
pub const BLOOM_MAX_LEVELS: usize = 6;

/// The extent of bloom level `level` along an axis of size `size`: each level
/// halves the one before, so level `level` is `size` shifted right by `level`.
pub open spec fn pyramid_extent(size: u32, level: nat) -> u32 {
    size >> level
}

/// Whether level `level` is too small to be made (16 texels or fewer along an axis).
pub open spec fn pyramid_stops(width: u32, height: u32, level: nat) -> bool {
    pyramid_extent(width, level) <= 16 || pyramid_extent(height, level) <= 16
}

/// The number of levels from `level` on, before the first level that is too
/// small or the level limit.
pub open spec fn pyramid_len_from(width: u32, height: u32, level: nat) -> nat
    decreases BLOOM_MAX_LEVELS - level,
{
    if level >= BLOOM_MAX_LEVELS || pyramid_stops(width, height, level) {
        level
    } else {
        pyramid_len_from(width, height, level + 1)
    }
}

/// The number of levels of the bloom pyramid of a canvas.
pub open spec fn pyramid_len(width: u32, height: u32) -> nat {
    pyramid_len_from(width, height, 0)
}

proof fn lemma_pyramid_len_from(width: u32, height: u32, level: nat)
    requires
        level <= BLOOM_MAX_LEVELS,
        forall|l: nat| l < level ==> !pyramid_stops(width, height, l),
    ensures
        level <= pyramid_len_from(width, height, level) <= BLOOM_MAX_LEVELS,
        forall|l: nat|
            l < pyramid_len_from(width, height, level) ==> !#[trigger] pyramid_stops(
                width,
                height,
                l,
            ),
        pyramid_len_from(width, height, level) < BLOOM_MAX_LEVELS ==> pyramid_stops(
            width,
            height,
            pyramid_len_from(width, height, level),
        ),
    decreases BLOOM_MAX_LEVELS - level,
{
    if level < BLOOM_MAX_LEVELS && !pyramid_stops(width, height, level) {
        assert forall|l: nat| l < level + 1 implies !pyramid_stops(width, height, l) by {
            if l < level {
            }
        }
        lemma_pyramid_len_from(width, height, level + 1);
    }
}

proof fn lemma_pyramid_len_skip(width: u32, height: u32, from: nat, to: nat)
    requires
        from <= to <= BLOOM_MAX_LEVELS,
        forall|l: nat| from <= l < to ==> !#[trigger] pyramid_stops(width, height, l),
    ensures
        pyramid_len_from(width, height, from) == pyramid_len_from(width, height, to),
    decreases to - from,
{
    if from < to {
        lemma_pyramid_len_skip(width, height, from + 1, to);
    }
}

/// The bloom pyramid has at most six levels, every level is larger than 16
/// texels in both directions, and the first level too small to be made (if
/// the limit was not reached) is where it ends.
pub proof fn lemma_pyramid_bounds(width: u32, height: u32)
    ensures
        pyramid_len(width, height) <= BLOOM_MAX_LEVELS,
        forall|l: nat|
            l < pyramid_len(width, height) ==> pyramid_extent(width, l) > 16 && pyramid_extent(
                height,
                l,
            ) > 16,
        pyramid_len(width, height) < BLOOM_MAX_LEVELS ==> pyramid_stops(
            width,
            height,
            pyramid_len(width, height),
        ),
{
    lemma_pyramid_len_from(width, height, 0);
    assert forall|l: nat| l < pyramid_len(width, height) implies pyramid_extent(width, l) > 16
        && pyramid_extent(height, l) > 16 by {
        assert(!pyramid_stops(width, height, l));
    }
}

proof fn lemma_halving_shrinks(x: u32, s: u32)
    requires
        1 <= s < 32,
        (x >> ((s - 1) as u32)) > 0,
    ensures
        (x >> s) < (x >> ((s - 1) as u32)),
        (x >> s) == (x >> ((s - 1) as u32)) >> 1u32,
{
    assert(1 <= s < 32 && (x >> ((s - 1) as u32)) > 0 ==> (x >> s) < (x >> ((s - 1) as u32)))
        by (bit_vector);
    assert(1 <= s < 32 ==> (x >> s) == (x >> ((s - 1) as u32)) >> 1u32) by (bit_vector);
}

/// Each level of the bloom pyramid is half the one before (rounded down), in
/// both directions, and so strictly smaller.
pub proof fn lemma_pyramid_shrinks(width: u32, height: u32, level: nat)
    requires
        1 <= level < pyramid_len(width, height),
    ensures
        pyramid_extent(width, level) == pyramid_extent(width, (level - 1) as nat) / 2,
        pyramid_extent(height, level) == pyramid_extent(height, (level - 1) as nat) / 2,
        pyramid_extent(width, level) < pyramid_extent(width, (level - 1) as nat),
        pyramid_extent(height, level) < pyramid_extent(height, (level - 1) as nat),
{
    lemma_pyramid_bounds(width, height);
    assert(pyramid_extent(width, (level - 1) as nat) > 16);
    assert(pyramid_extent(height, (level - 1) as nat) > 16);
    let l: u32 = level as u32;
    assert(pyramid_extent(width, level) == width >> l);
    assert(pyramid_extent(width, (level - 1) as nat) == width >> ((l - 1) as u32));
    assert(pyramid_extent(height, level) == height >> l);
    assert(pyramid_extent(height, (level - 1) as nat) == height >> ((l - 1) as u32));
    lemma_halving_shrinks(width, l);
    lemma_halving_shrinks(height, l);
    let pw: u32 = width >> ((l - 1) as u32);
    let ph: u32 = height >> ((l - 1) as u32);
    assert(pw >> 1u32 == pw / 2) by (bit_vector);
    assert(ph >> 1u32 == ph / 2) by (bit_vector);
}

/// The sizes of the bloom pyramid's sampling textures for a canvas of
/// `width` by `height` texels.
pub fn bloom_pyramid(width: u32, height: u32) -> (levels: Vec<(u32, u32)>)
    ensures
        levels@.len() == pyramid_len(width, height),
        forall|l: int|
            0 <= l < levels@.len() ==> #[trigger] levels@[l] == (
                pyramid_extent(width, l as nat),
                pyramid_extent(height, l as nat),
            ),
{
    let mut levels: Vec<(u32, u32)> = Vec::new();
    let mut i: u32 = 0;
    while i < 6
        invariant
            i <= 6,
            levels@.len() == i,
            forall|l: nat| l < i ==> !#[trigger] pyramid_stops(width, height, l),
            forall|l: int|
                0 <= l < levels@.len() ==> #[trigger] levels@[l] == (
                    pyramid_extent(width, l as nat),
                    pyramid_extent(height, l as nat),
                ),
        decreases 6 - i,
    {
        let current_width: u32 = width >> i;
        let current_height: u32 = height >> i;
        assert(current_width == pyramid_extent(width, i as nat));
        assert(current_height == pyramid_extent(height, i as nat));
        if current_width <= 16 || current_height <= 16 {
            proof {
                lemma_pyramid_len_skip(width, height, 0, i as nat);
            }
            return levels;
        }
        levels.push((current_width, current_height));
        i = i + 1;
    }
    proof {
        lemma_pyramid_len_skip(width, height, 0, 6);
    }
    levels
}

/// The textures that the bloom passes read and write.
#[derive(Clone, Copy, Debug, PartialEq, Eq, Structural)]
pub enum BloomTexture {
    /// The scene's intermediate texture.
    Intermediate,
    /// The second intermediate texture.
    Intermediate2,
    /// A level of the sampling pyramid.
    Sampling(usize),
    /// The bloom texture.
    Bloom,
}

#[derive(Clone, Copy, Debug, PartialEq, Eq, Structural)]
pub enum BloomStage {
    Extraction,
    DownSampling,
    UpSampling,
    Resolve,
}

/// One pass of the bloom effect: what it samples (and, for the resolve, the
/// texture it adds the sample to), what it renders into, and whether it
/// clears the target first (else it blends onto it).
#[derive(Clone, Copy, Debug, PartialEq, Eq, Structural)]
pub struct BloomStep {
    pub stage: BloomStage,
    pub source: BloomTexture,
    pub added_to: Option<BloomTexture>,
    pub target: BloomTexture,
    pub clear: bool,
}

/// Step `k` of the bloom effect over a pyramid of `n` levels: extraction of
/// the bright parts, down-sampling into each level, up-sampling back from the
/// smallest level (the last one into the bloom texture), and the resolve that
/// adds the bloom texture to the scene's intermediate texture.
pub open spec fn bloom_step(n: nat, k: nat) -> BloomStep {
    if k == 0 {
        BloomStep {
            stage: BloomStage::Extraction,
            source: BloomTexture::Intermediate,
            added_to: None,
            target: BloomTexture::Intermediate2,
            clear: true,
        }
    } else if k <= n {
        let i = k - 1;
        BloomStep {
            stage: BloomStage::DownSampling,
            source: if i == 0 {
                BloomTexture::Intermediate2
            } else {
                BloomTexture::Sampling((i - 1) as usize)
            },
            added_to: None,
            target: BloomTexture::Sampling(i as usize),
            clear: true,
        }
    } else if k <= 2 * n {
        let i = k - 1 - n;
        BloomStep {
            stage: BloomStage::UpSampling,
            source: BloomTexture::Sampling((n - 1 - i) as usize),
            added_to: None,
            target: if i == n - 1 {
                BloomTexture::Bloom
            } else {
                BloomTexture::Sampling((n - 2 - i) as usize)
            },
            clear: i == n - 1,
        }
    } else {
        BloomStep {
            stage: BloomStage::Resolve,
            source: BloomTexture::Bloom,
            added_to: Some(BloomTexture::Intermediate),
            target: BloomTexture::Intermediate2,
            clear: true,
        }
    }
}

/// The passes of the bloom effect over a pyramid of `levels` levels, in order.
pub fn plan_bloom_pass(levels: usize) -> (steps: Vec<BloomStep>)
    requires
        2 * levels + 2 <= usize::MAX,
    ensures
        steps@.len() == 2 * levels + 2,
        forall|k: int| 0 <= k < steps@.len() ==> #[trigger] steps@[k] == bloom_step(levels as nat, k as nat),
{
    let mut steps: Vec<BloomStep> = Vec::new();
    steps.push(
        BloomStep {
            stage: BloomStage::Extraction,
            source: BloomTexture::Intermediate,
            added_to: None,
            target: BloomTexture::Intermediate2,
            clear: true,
        },
    );
    let mut i: usize = 0;
    while i < levels
        invariant
            2 * levels + 2 <= usize::MAX,
            i <= levels,
            steps@.len() == i + 1,
            forall|k: int| 0 <= k < steps@.len() ==> #[trigger] steps@[k] == bloom_step(levels as nat, k as nat),
        decreases levels - i,
    {
        let source = if i == 0 {
            BloomTexture::Intermediate2
        } else {
            BloomTexture::Sampling(i - 1)
        };
        steps.push(
            BloomStep {
                stage: BloomStage::DownSampling,
                source,
                added_to: None,
                target: BloomTexture::Sampling(i),
                clear: true,
            },
        );
        i = i + 1;
    }
    let mut i: usize = 0;
    while i < levels
        invariant
            2 * levels + 2 <= usize::MAX,
            i <= levels,
            steps@.len() == levels + i + 1,
            forall|k: int| 0 <= k < steps@.len() ==> #[trigger] steps@[k] == bloom_step(levels as nat, k as nat),
        decreases levels - i,
    {
        let last = i == levels - 1;
        let target = if last {
            BloomTexture::Bloom
        } else {
            BloomTexture::Sampling(levels - 2 - i)
        };
        steps.push(
            BloomStep {
                stage: BloomStage::UpSampling,
                source: BloomTexture::Sampling(levels - 1 - i),
                added_to: None,
                target,
                clear: last,
            },
        );
        i = i + 1;
    }
    steps.push(
        BloomStep {
            stage: BloomStage::Resolve,
            source: BloomTexture::Bloom,
            added_to: Some(BloomTexture::Intermediate),
            target: BloomTexture::Intermediate2,
            clear: true,
        },
    );
    steps
}

/// The bloom passes form a chain: from the scene's intermediate texture,
/// each pass samples what the pass before it rendered, until the resolve
/// writes the second intermediate texture. Down-sampling goes one pyramid
/// level down (to a smaller level), up-sampling one level up, and only
/// levels of the pyramid are used. This needs at least one level: with
/// none, the resolve samples a bloom texture that nothing rendered.
pub proof fn lemma_bloom_chain(n: nat)
    requires
        1 <= n <= usize::MAX,
    ensures
        bloom_step(n, 0).source == BloomTexture::Intermediate,
        forall|k: nat| k + 1 < 2 * n + 2 ==> #[trigger] bloom_step(n, k).target == bloom_step(n, k + 1).source,
        bloom_step(n, 2 * n + 1).target == BloomTexture::Intermediate2,
        bloom_step(n, 2 * n + 1).added_to == Some(BloomTexture::Intermediate),
        forall|k: nat| k < 2 * n + 1 ==> (#[trigger] bloom_step(n, k)).added_to is None,
        forall|k: nat|
            k < 2 * n + 2 ==> match #[trigger] bloom_step(n, k).target {
                BloomTexture::Sampling(l) => l < n,
                _ => true,
            },
        forall|k: nat|
            k < 2 * n + 2 ==> match (#[trigger] bloom_step(n, k).source, bloom_step(n, k).target) {
                (BloomTexture::Sampling(s), BloomTexture::Sampling(t)) => match bloom_step(
                    n,
                    k,
                ).stage {
                    BloomStage::DownSampling => t == s + 1,
                    _ => t + 1 == s,
                },
                _ => true,
            },
{
}

/// Only the last up-sampling pass, the one into the bloom texture, clears its
/// target; every other up-sampling pass blends onto the pyramid level that
/// down-sampling left there. Extraction, down-sampling and the resolve all
/// render into a cleared target.
pub proof fn lemma_up_sampling_blends(n: nat)
    requires
        1 <= n,
    ensures
        forall|k: nat|
            k < 2 * n + 2 && (#[trigger] bloom_step(n, k)).stage == BloomStage::UpSampling ==> (
            bloom_step(n, k).clear <==> bloom_step(n, k).target == BloomTexture::Bloom),
        forall|k: nat|
            k < 2 * n + 2 && (#[trigger] bloom_step(n, k)).stage != BloomStage::UpSampling
                ==> bloom_step(n, k).clear,
        forall|k: nat|
            k < 2 * n + 2 && (#[trigger] bloom_step(n, k)).target == BloomTexture::Bloom ==> k == 2
                * n,
        bloom_step(n, 2 * n).stage == BloomStage::UpSampling,
        bloom_step(n, 2 * n).target == BloomTexture::Bloom,
        n >= 2 ==> !bloom_step(n, n + 1).clear && bloom_step(n, n + 1).stage
            == BloomStage::UpSampling,
{
}

// Sky box -----------------------------------------------------------------------------------

/// The compute dispatch that converts the HDR panorama into the six faces of a
/// sky cube of `sky_box_size` texels: one 16 by 16 workgroup per tile, six layers.
pub fn sky_conversion_dispatch(sky_box_size: u32) -> (counts: [u32; 3])
    requires
        sky_box_size + 15 <= u32::MAX,
    ensures
        counts@ == seq![((sky_box_size + 15) / 16) as u32, ((sky_box_size + 15) / 16) as u32, 6u32],
{
    let workgroup_count: u32 = (sky_box_size + 15) / 16;
    let counts: [u32; 3] = [workgroup_count, workgroup_count, 6];
    assert(counts@ =~= seq![((sky_box_size + 15) / 16) as u32, ((sky_box_size + 15) / 16) as u32, 6u32]);
    counts
}

// Mesh resources ----------------------------------------------------------------------------

/// How texel data of a tightly packed RGBA8 texture is laid out for upload.
#[derive(Clone, Copy, Debug, PartialEq, Eq, Structural)]
pub struct TextureCopyLayout {
    pub width: u32,
    pub height: u32,
    pub bytes_per_row: u32,
    pub rows_per_image: u32,
}

/// The upload layout of an RGBA8 texture of `size` texels: four bytes per texel.
pub open spec fn copy_layout_of(size: [u32; 2]) -> TextureCopyLayout {
    TextureCopyLayout {
        width: size[0],
        height: size[1],
        bytes_per_row: (4 * size[0]) as u32,
        rows_per_image: size[1],
    }
}

/// A texture is uploaded with its own extent: `size[0]` texels wide and
/// `size[1]` high, one row of four bytes per texel after another, so that the
/// layout covers exactly the texture's `4 * width * height` bytes.
pub proof fn lemma_copy_layout_covers_texture(size: [u32; 2])
    requires
        4 * size[0] <= u32::MAX,
    ensures
        copy_layout_of(size).width == size[0],
        copy_layout_of(size).height == size[1],
        copy_layout_of(size).bytes_per_row == 4 * copy_layout_of(size).width,
        copy_layout_of(size).rows_per_image == copy_layout_of(size).height,
        copy_layout_of(size).bytes_per_row * copy_layout_of(size).rows_per_image == 4 * size[0]
            * size[1],
{
    let w: int = size[0] as int;
    let h: int = size[1] as int;
    assert((4 * w) * h == 4 * w * h) by (nonlinear_arith);
}

/// The upload layout of an RGBA8 texture of `size` texels.
pub fn texture_copy_layout(size: [u32; 2]) -> (layout: TextureCopyLayout)
    requires
        4 * size[0] <= u32::MAX,
    ensures
        layout == copy_layout_of(size),
{
    TextureCopyLayout {
        width: size[0],
        height: size[1],
        bytes_per_row: 4 * size[0],
        rows_per_image: size[1],
    }
}

/// What a mesh's GPU resources are made from: how many indices are drawn,
/// the bytes of the index buffer, and, for a mesh with a material, which
/// material is used and how its three textures are uploaded.
#[derive(Clone, Debug)]
pub struct MeshResourcePlan {
    pub index_count: u32,
    pub index_bytes: Vec<u8>,
    pub material: Option<usize>,
    pub base_color: Option<TextureCopyLayout>,
    pub normal: Option<TextureCopyLayout>,
    pub metallic_roughness: Option<TextureCopyLayout>,
}

/// The four bytes of `x`, least significant first.
pub open spec fn le_bytes(x: u32) -> Seq<u8> {
    seq![
        (x % 256) as u8,
        ((x / 256) % 256) as u8,
        ((x / 65536) % 256) as u8,
        ((x / 16777216) % 256) as u8,
    ]
}

/// The four bytes of `x`, most significant first.
pub open spec fn be_bytes(x: u32) -> Seq<u8> {
    le_bytes(x).reverse()
}

/// The bytes of a sequence of `u32`, four per value, each value's bytes
/// least significant first when `little_endian`, most significant first else.
pub open spec fn u32s_bytes(values: Seq<u32>, little_endian: bool) -> Seq<u8> {
    Seq::new(
        4 * values.len(),
        |i: int|
            if little_endian {
                le_bytes(values[i / 4])[i % 4]
            } else {
                be_bytes(values[i / 4])[i % 4]
            },
    )
}

/// The bytes of the indices as `bytemuck::cast_slice` gives them: the slice
/// of `u32` reinterpreted as bytes in memory, four per index, each index's
/// bytes in the machine's byte order. The byte order itself depends on the
/// machine and is left open: little-endian or big-endian, the same for all.
#[verifier::external_body]
fn index_bytes(indices: &[u32]) -> (bytes: Vec<u8>)
    ensures
        bytes@ == u32s_bytes(indices@, true) || bytes@ == u32s_bytes(indices@, false),
{
    bytemuck::cast_slice::<u32, u8>(indices).to_vec()
}

/// The textures of material `m` can be uploaded: each row of each fits a `u32` byte count.
pub open spec fn material_uploadable(m: SceneMaterial) -> bool {
    &&& 4 * m.base_color_texture_size[0] <= u32::MAX
    &&& 4 * m.normal_texture_size[0] <= u32::MAX
    &&& 4 * m.metallic_roughness_texture_size[0] <= u32::MAX
}

/// Plans the GPU resources of a mesh: its index count and the bytes of its
/// index buffer and, if the mesh has a material (which must then exist), the
/// material and the upload layouts of its textures. A mesh without a material
/// gets buffers and no textures.
pub fn plan_mesh_rendering_resource(mesh: &Mesh, materials: &Vec<SceneMaterial>) -> (plan:
    MeshResourcePlan)
    requires
        mesh.material matches Some(m) ==> (m as int) < materials@.len() && material_uploadable(
            materials@[m as int],
        ),
    ensures
        plan.index_count == mesh.indices@.len() as u32,
        plan.index_bytes@ == u32s_bytes(mesh.indices@, true) || plan.index_bytes@ == u32s_bytes(
            mesh.indices@,
            false,
        ),
        match mesh.material {
            Some(m) => {
                &&& plan.material == Some(m as usize)
                &&& plan.base_color == Some(copy_layout_of(materials@[m as int].base_color_texture_size))
                &&& plan.normal == Some(copy_layout_of(materials@[m as int].normal_texture_size))
                &&& plan.metallic_roughness == Some(
                    copy_layout_of(materials@[m as int].metallic_roughness_texture_size),
                )
            },
            None => {
                &&& plan.material is None
                &&& plan.base_color is None
                &&& plan.normal is None
                &&& plan.metallic_roughness is None
            },
        },
{
    let index_count: u32 = mesh.indices.len() as u32;
    let index_bytes: Vec<u8> = index_bytes(mesh.indices.as_slice());
    match mesh.material {
        Some(m) => {
            let material: usize = m as usize;
            let mat = &materials[material];
            MeshResourcePlan {
                index_count,
                index_bytes,
                material: Some(material),
                base_color: Some(texture_copy_layout(mat.base_color_texture_size)),
                normal: Some(texture_copy_layout(mat.normal_texture_size)),
                metallic_roughness: Some(texture_copy_layout(mat.metallic_roughness_texture_size)),
            }
        },
        None => MeshResourcePlan {
            index_count,
            index_bytes,
            material: None,
            base_color: None,
            normal: None,
            metallic_roughness: None,
        },
    }
}

} // verus!
