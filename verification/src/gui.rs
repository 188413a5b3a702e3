use vstd::prelude::*;
use crate::scene::{Scene, SceneParameter, ShadingType};
use crate::text::{background_color_text, decimal_text, radix_digits, str_equal};

verus! {

// Dialog ------------------------------------------------------------------------------------

/// The class of a shown widget wrapper.
pub open spec fn shown_class() -> Seq<char> {
    "widget-wrapper"@
}

/// The class that a wrapper of the inactive shading type is created with.
pub open spec fn created_hidden_class() -> Seq<char> {
    "widget-wrapper-hidden"@
}

/// The class that a wrapper gets when the other shading type is selected.
pub open spec fn switched_hidden_class() -> Seq<char> {
    "widget-wrapper widget-wrapper-hidden"@
}

/// The debug dialog's widgets as they are created: the selected render
/// type, the classes of the forward and deferred option wrappers (only the
/// active one shown), the background color picker's value, the pass
/// switches, and the scene statistics.
pub struct DebugDialog {
    pub render_type: ShadingType,
    pub forward_wrapper_class: String,
    pub differed_wrapper_class: String,
    pub background_color: String,
    pub is_use_sky_box: bool,
    pub is_use_bloom: bool,
    pub is_use_composite: bool,
    pub is_use_tone_mapping: bool,
    pub is_use_gamma_correction: bool,
    pub objects_text: String,
    pub materials_text: String,
}

/// The class of the wrapper of shading type `wrapper` when the dialog is created.
pub open spec fn created_wrapper_class(active: ShadingType, wrapper: ShadingType) -> Seq<char> {
    if active == wrapper {
        shown_class()
    } else {
        created_hidden_class()
    }
}

/// `d` is the dialog created for parameters `p`, a scene of `objects`
/// objects and `materials` materials, and a background color whose channels
/// scaled to 0..255 are `rgb`.
pub open spec fn is_dialog_of(
    d: DebugDialog,
    p: SceneParameter,
    objects: nat,
    materials: nat,
    rgb: [u32; 3],
) -> bool {
    &&& d.render_type == p.scene_shading_type
    &&& d.forward_wrapper_class@ == created_wrapper_class(
        p.scene_shading_type,
        ShadingType::Forward,
    )
    &&& d.differed_wrapper_class@ == created_wrapper_class(
        p.scene_shading_type,
        ShadingType::Differed,
    )
    &&& d.background_color@ == seq!['#'] + radix_digits(rgb[0] as nat, 16) + radix_digits(
        rgb[1] as nat,
        16,
    ) + radix_digits(rgb[2] as nat, 16)
    &&& d.is_use_sky_box == p.is_use_sky_box
    &&& d.is_use_bloom == p.is_use_bloom
    &&& d.is_use_composite == p.is_use_composite
    &&& d.is_use_tone_mapping == p.is_use_tone_mapping
    &&& d.is_use_gamma_correction == p.is_use_gamma_correction
    &&& d.objects_text@ == radix_digits(objects, 10)
    &&& d.materials_text@ == radix_digits(materials, 10)
}

fn wrapper_class(active: ShadingType, wrapper: ShadingType) -> (s: String)
    ensures
        s@ == created_wrapper_class(active, wrapper),
{
    if active == wrapper {
        String::from_str("widget-wrapper")
    } else {
        String::from_str("widget-wrapper-hidden")
    }
}

/// Decides the state of the debug dialog's widgets for a scene: the
/// environment, base pass, sky box, post-process and statistics panels.
/// `background_rgb` holds the background color's channels scaled to 0..255.
pub fn create_frontend_gui(scene: &Scene, background_rgb: [u32; 3]) -> (dialog: DebugDialog)
    ensures
        is_dialog_of(
            dialog,
            scene.parameters,
            scene.objects@.len(),
            scene.materials@.len(),
            background_rgb,
        ),
{
    let p = scene.parameters;
    DebugDialog {
        render_type: p.scene_shading_type,
        forward_wrapper_class: wrapper_class(p.scene_shading_type, ShadingType::Forward),
        differed_wrapper_class: wrapper_class(p.scene_shading_type, ShadingType::Differed),
        background_color: background_color_text(background_rgb),
        is_use_sky_box: p.is_use_sky_box,
        is_use_bloom: p.is_use_bloom,
        is_use_composite: p.is_use_composite,
        is_use_tone_mapping: p.is_use_tone_mapping,
        is_use_gamma_correction: p.is_use_gamma_correction,
        objects_text: decimal_text(scene.objects.len()),
        materials_text: decimal_text(scene.materials.len()),
    }
}

// Events ------------------------------------------------------------------------------------

/// A change made in the debug dialog.
pub enum GuiEvent {
    /// The render type select changed to this value.
    RenderType(String),
    /// The debug buffer select changed to this value.
    DebugBuffer(String),
    /// The forward output select changed to this value.
    ForwardDisplay(String),
    SkyBox(bool),
    Bloom(bool),
    Composite(bool),
    ToneMapping(bool),
    GammaCorrection(bool),
}

/// The new classes of the forward and deferred wrappers.
pub struct WrapperClasses {
    pub forward: String,
    pub differed: String,
}

/// The debug buffer that a select value stands for: render, normal, depth,
/// albedo or metallic, and render for any other value.
pub open spec fn debug_buffer_type(value: Seq<char>) -> u8 {
    if value == "render"@ {
        0
    } else if value == "normal"@ {
        1
    } else if value == "depth"@ {
        2
    } else if value == "albedo"@ {
        3
    } else if value == "metallic"@ {
        4
    } else {
        0
    }
}

/// The forward output that a select value stands for: the normals for
/// "normal", the rendering for any other value.
pub open spec fn forward_display_type(value: Seq<char>) -> u8 {
    if value == "normal"@ {
        1
    } else {
        0
    }
}

/// The shading type that a render type value selects, if any.
pub open spec fn selected_shading_type(value: Seq<char>) -> Option<ShadingType> {
    if value == "forward"@ {
        Some(ShadingType::Forward)
    } else if value == "differed"@ {
        Some(ShadingType::Differed)
    } else {
        None
    }
}

/// The parameters after a change in the dialog.
pub open spec fn after_gui_event(p: SceneParameter, e: GuiEvent) -> SceneParameter {
    match e {
        GuiEvent::RenderType(v) => match selected_shading_type(v@) {
            Some(t) => SceneParameter { scene_shading_type: t, ..p },
            None => p,
        },
        GuiEvent::DebugBuffer(v) => SceneParameter { differed_debug_type: debug_buffer_type(v@), ..p },
        GuiEvent::ForwardDisplay(v) => SceneParameter {
            forward_debug_type: forward_display_type(v@),
            ..p
        },
        GuiEvent::SkyBox(b) => SceneParameter { is_use_sky_box: b, ..p },
        GuiEvent::Bloom(b) => SceneParameter { is_use_bloom: b, ..p },
        GuiEvent::Composite(b) => SceneParameter { is_use_composite: b, ..p },
        GuiEvent::ToneMapping(b) => SceneParameter { is_use_tone_mapping: b, ..p },
        GuiEvent::GammaCorrection(b) => SceneParameter { is_use_gamma_correction: b, ..p },
    }
}

/// The wrapper classes that a change in the dialog sets: the selected
/// shading type's wrapper is shown and the other one hidden.
pub open spec fn wrapper_classes_after(e: GuiEvent) -> Option<(Seq<char>, Seq<char>)> {
    match e {
        GuiEvent::RenderType(v) => match selected_shading_type(v@) {
            Some(ShadingType::Forward) => Some((shown_class(), switched_hidden_class())),
            Some(ShadingType::Differed) => Some((switched_hidden_class(), shown_class())),
            None => None,
        },
        _ => None,
    }
}

fn debug_buffer_of(value: &String) -> (t: u8)
    ensures
        t == debug_buffer_type(value@),
{
    let v = value.as_str();
    if str_equal(v, "render") {
        0
    } else if str_equal(v, "normal") {
        1
    } else if str_equal(v, "depth") {
        2
    } else if str_equal(v, "albedo") {
        3
    } else if str_equal(v, "metallic") {
        4
    } else {
        0
    }
}

fn shading_type_of(value: &String) -> (t: Option<ShadingType>)
    ensures
        t == selected_shading_type(value@),
{
    let v = value.as_str();
    if str_equal(v, "forward") {
        Some(ShadingType::Forward)
    } else if str_equal(v, "differed") {
        Some(ShadingType::Differed)
    } else {
        None
    }
}

fn wrapper_classes_for(selected: Option<ShadingType>) -> (classes: Option<WrapperClasses>)
    ensures
        match selected {
            Some(ShadingType::Forward) => classes matches Some(c) && c.forward@ == shown_class()
                && c.differed@ == switched_hidden_class(),
            Some(ShadingType::Differed) => classes matches Some(c) && c.forward@
                == switched_hidden_class() && c.differed@ == shown_class(),
            None => classes is None,
        },
{
    match selected {
        Some(ShadingType::Forward) => Some(
            WrapperClasses {
                forward: String::from_str("widget-wrapper"),
                differed: String::from_str("widget-wrapper widget-wrapper-hidden"),
            },
        ),
        Some(ShadingType::Differed) => Some(
            WrapperClasses {
                forward: String::from_str("widget-wrapper widget-wrapper-hidden"),
                differed: String::from_str("widget-wrapper"),
            },
        ),
        None => None,
    }
}

fn parameters_after(p: SceneParameter, event: &GuiEvent) -> (q: SceneParameter)
    ensures
        q == after_gui_event(p, *event),
{
    match event {
        GuiEvent::RenderType(value) => match shading_type_of(value) {
            Some(t) => SceneParameter { scene_shading_type: t, ..p },
            None => p,
        },
        GuiEvent::DebugBuffer(value) => SceneParameter {
            differed_debug_type: debug_buffer_of(value),
            ..p
        },
        GuiEvent::ForwardDisplay(value) => {
            let v = value.as_str();
            proof {
                reveal_strlit("rendering");
                reveal_strlit("normal");
                assert("rendering"@.len() != "normal"@.len());
            }
            let t: u8 = if str_equal(v, "rendering") {
                0
            } else if str_equal(v, "normal") {
                1
            } else {
                0
            };
            SceneParameter { forward_debug_type: t, ..p }
        },
        GuiEvent::SkyBox(b) => SceneParameter { is_use_sky_box: *b, ..p },
        GuiEvent::Bloom(b) => SceneParameter { is_use_bloom: *b, ..p },
        GuiEvent::Composite(b) => SceneParameter { is_use_composite: *b, ..p },
        GuiEvent::ToneMapping(b) => SceneParameter { is_use_tone_mapping: *b, ..p },
        GuiEvent::GammaCorrection(b) => SceneParameter { is_use_gamma_correction: *b, ..p },
    }
}

/// Applies a change made in the dialog to the scene's parameters, and says
/// how the option wrappers' classes change.
pub fn handle_gui_event(parameters: &mut SceneParameter, event: &GuiEvent) -> (classes: Option<
    WrapperClasses,
>)
    ensures
        *final(parameters) == after_gui_event(*old(parameters), *event),
        match wrapper_classes_after(*event) {
            Some((forward, differed)) => classes matches Some(c) && c.forward@ == forward
                && c.differed@ == differed,
            None => classes is None,
        },
{
    *parameters = parameters_after(*parameters, event);
    match event {
        GuiEvent::RenderType(value) => wrapper_classes_for(shading_type_of(value)),
        _ => None,
    }
}

// Laws --------------------------------------------------------------------------------------

/// Selecting a render type in the dialog shows the selected type's option
/// wrapper and hides the other one, as a dialog created for the new
/// parameters does (the hidden wrapper's class differs in the two cases, but
/// in both it is not the shown class).
pub proof fn lemma_render_type_switch_matches_dialog(p: SceneParameter, value: String)
    requires
        selected_shading_type(value@) is Some,
    ensures
        ({
            let e = GuiEvent::RenderType(value);
            let q = after_gui_event(p, e);
            let (forward, differed) = wrapper_classes_after(e).unwrap();
            &&& q.scene_shading_type == selected_shading_type(value@).unwrap()
            &&& (forward == shown_class()) == (created_wrapper_class(
                q.scene_shading_type,
                ShadingType::Forward,
            ) == shown_class())
            &&& (differed == shown_class()) == (created_wrapper_class(
                q.scene_shading_type,
                ShadingType::Differed,
            ) == shown_class())
            &&& (forward == shown_class()) != (differed == shown_class())
        }),
{
    reveal_strlit("widget-wrapper");
    reveal_strlit("widget-wrapper-hidden");
    reveal_strlit("widget-wrapper widget-wrapper-hidden");
    assert(shown_class().len() == 14);
    assert(created_hidden_class().len() == 21);
    assert(switched_hidden_class().len() == 36);
    assert(shown_class() != created_hidden_class());
    assert(shown_class() != switched_hidden_class());
}

/// A switch toggled in the dialog shows up, as toggled, in a dialog created
/// afterwards, and no other setting changes.
pub proof fn lemma_switch_round_trip(
    p: SceneParameter,
    b: bool,
    d: DebugDialog,
    objects: nat,
    materials: nat,
    rgb: [u32; 3],
)
    ensures
        is_dialog_of(d, after_gui_event(p, GuiEvent::SkyBox(b)), objects, materials, rgb)
            ==> d.is_use_sky_box == b,
        is_dialog_of(d, after_gui_event(p, GuiEvent::Bloom(b)), objects, materials, rgb)
            ==> d.is_use_bloom == b,
        is_dialog_of(d, after_gui_event(p, GuiEvent::Composite(b)), objects, materials, rgb)
            ==> d.is_use_composite == b,
        is_dialog_of(d, after_gui_event(p, GuiEvent::ToneMapping(b)), objects, materials, rgb)
            ==> d.is_use_tone_mapping == b,
        is_dialog_of(d, after_gui_event(p, GuiEvent::GammaCorrection(b)), objects, materials, rgb)
            ==> d.is_use_gamma_correction == b,
        after_gui_event(p, GuiEvent::SkyBox(b)) == (SceneParameter { is_use_sky_box: b, ..p }),
        after_gui_event(p, GuiEvent::Bloom(b)) == (SceneParameter { is_use_bloom: b, ..p }),
        after_gui_event(p, GuiEvent::Composite(b)) == (SceneParameter { is_use_composite: b, ..p }),
        after_gui_event(p, GuiEvent::ToneMapping(b)) == (SceneParameter {
            is_use_tone_mapping: b,
            ..p
        }),
        after_gui_event(p, GuiEvent::GammaCorrection(b)) == (SceneParameter {
            is_use_gamma_correction: b,
            ..p
        }),
{
}

/// A created dialog shows the option wrapper of the scene's shading type,
/// and only that one.
pub proof fn lemma_dialog_shows_active_wrapper(t: ShadingType)
    ensures
        (created_wrapper_class(t, ShadingType::Forward) == shown_class()) == (t
            == ShadingType::Forward),
        (created_wrapper_class(t, ShadingType::Differed) == shown_class()) == (t
            == ShadingType::Differed),
{
    reveal_strlit("widget-wrapper");
    reveal_strlit("widget-wrapper-hidden");
    assert(shown_class().len() != created_hidden_class().len());
}

/// Every debug buffer value selects one of the five buffers.
pub proof fn lemma_debug_buffer_in_range(value: Seq<char>)
    ensures
        debug_buffer_type(value) <= 4,
        forward_display_type(value) <= 1,
{
}

} // verus!
