//! Data structures for the `VRMC_materials_mtoon` 1.0 glTF extension.
use vstd::prelude::*;
use crate::json::{Json, JsonView, Number, get, entries_view};
use crate::codec::{
    Codec, opt_encoding, opt_wf, DecodeError, Extensions, Name, eq_str, opt_ok, opt_is, req_ok,
    req_is, extras_is, opt_entry, req_entry, extras_entry, group_lookup, lemma_opt_field,
    lemma_req_field, opt_field, req_field, extras_field, put_opt, put_req, put_extras,
};

verus! {

/// The name of the MToon material extension in a glTF document.
pub const VRMC_MATERIALS_MTOON: &'static str = "VRMC_materials_mtoon";

/// The parameters of a toon-shaded material.
#[derive(Clone, Debug)]
pub struct VrmcMaterialsMtoonSchema {
    pub extensions: Option<Extensions>,
    pub extras: Json,
    pub gi_equalization_factor: Option<Number>,
    pub matcap_factor: Option<[Number; 3]>,
    pub matcap_texture: Option<TextureInfo>,
    pub outline_color_factor: Option<[Number; 3]>,
    pub outline_lighting_mix_factor: Option<Number>,
    pub outline_width_factor: Option<Number>,
    pub outline_width_mode: Option<OutlineWidthMode>,
    pub outline_width_multiply_texture: Option<TextureInfo>,
    pub parametric_rim_color_factor: Option<[Number; 3]>,
    pub parametric_rim_fresnel_power_factor: Option<Number>,
    pub parametric_rim_lift_factor: Option<Number>,
    pub render_queue_offset_number: Option<i64>,
    pub rim_lighting_mix_factor: Option<Number>,
    pub rim_multiply_texture: Option<TextureInfo>,
    pub shade_color_factor: Option<[Number; 3]>,
    pub shade_multiply_texture: Option<TextureInfo>,
    pub shading_shift_factor: Option<Number>,
    pub shading_shift_texture: Option<ShadingShiftTextureInfo>,
    pub shading_toony_factor: Option<Number>,
    /// Specification version of VRMC_materials_mtoon.
    pub spec_version: String,
    pub transparent_with_z_write: Option<bool>,
    pub uv_animation_mask_texture: Option<TextureInfo>,
    pub uv_animation_rotation_speed_factor: Option<Number>,
    pub uv_animation_scroll_x_speed_factor: Option<Number>,
    pub uv_animation_scroll_y_speed_factor: Option<Number>,
}

impl VrmcMaterialsMtoonSchema {
    /// Decoding a JSON value as this entity succeeds.
    #[verifier::opaque]
    pub open spec fn spec_accepts(j: JsonView) -> bool {
        &&& j is Object
        &&& opt_ok::<Extensions>(get(j, "extensions"@))
        &&& opt_ok::<Number>(get(j, "giEqualizationFactor"@))
        &&& opt_ok::<[Number; 3]>(get(j, "matcapFactor"@))
        &&& opt_ok::<TextureInfo>(get(j, "matcapTexture"@))
        &&& opt_ok::<[Number; 3]>(get(j, "outlineColorFactor"@))
        &&& opt_ok::<Number>(get(j, "outlineLightingMixFactor"@))
        &&& opt_ok::<Number>(get(j, "outlineWidthFactor"@))
        &&& opt_ok::<OutlineWidthMode>(get(j, "outlineWidthMode"@))
        &&& opt_ok::<TextureInfo>(get(j, "outlineWidthMultiplyTexture"@))
        &&& opt_ok::<[Number; 3]>(get(j, "parametricRimColorFactor"@))
        &&& opt_ok::<Number>(get(j, "parametricRimFresnelPowerFactor"@))
        &&& opt_ok::<Number>(get(j, "parametricRimLiftFactor"@))
        &&& opt_ok::<i64>(get(j, "renderQueueOffsetNumber"@))
        &&& opt_ok::<Number>(get(j, "rimLightingMixFactor"@))
        &&& opt_ok::<TextureInfo>(get(j, "rimMultiplyTexture"@))
        &&& opt_ok::<[Number; 3]>(get(j, "shadeColorFactor"@))
        &&& opt_ok::<TextureInfo>(get(j, "shadeMultiplyTexture"@))
        &&& opt_ok::<Number>(get(j, "shadingShiftFactor"@))
        &&& opt_ok::<ShadingShiftTextureInfo>(get(j, "shadingShiftTexture"@))
        &&& opt_ok::<Number>(get(j, "shadingToonyFactor"@))
        &&& req_ok::<String>(get(j, "specVersion"@))
        &&& opt_ok::<bool>(get(j, "transparentWithZWrite"@))
        &&& opt_ok::<TextureInfo>(get(j, "uvAnimationMaskTexture"@))
        &&& opt_ok::<Number>(get(j, "uvAnimationRotationSpeedFactor"@))
        &&& opt_ok::<Number>(get(j, "uvAnimationScrollXSpeedFactor"@))
        &&& opt_ok::<Number>(get(j, "uvAnimationScrollYSpeedFactor"@))
    }

    /// `x` is the entity that the JSON value `j` decodes to.
    #[verifier::opaque]
    pub open spec fn spec_denotes(j: JsonView, x: VrmcMaterialsMtoonSchema) -> bool {
        &&& opt_is::<Extensions>(get(j, "extensions"@), x.extensions)
        &&& extras_is(get(j, "extras"@), x.extras)
        &&& opt_is::<Number>(get(j, "giEqualizationFactor"@), x.gi_equalization_factor)
        &&& opt_is::<[Number; 3]>(get(j, "matcapFactor"@), x.matcap_factor)
        &&& opt_is::<TextureInfo>(get(j, "matcapTexture"@), x.matcap_texture)
        &&& opt_is::<[Number; 3]>(get(j, "outlineColorFactor"@), x.outline_color_factor)
        &&& opt_is::<Number>(get(j, "outlineLightingMixFactor"@), x.outline_lighting_mix_factor)
        &&& opt_is::<Number>(get(j, "outlineWidthFactor"@), x.outline_width_factor)
        &&& opt_is::<OutlineWidthMode>(get(j, "outlineWidthMode"@), x.outline_width_mode)
        &&& opt_is::<TextureInfo>(get(j, "outlineWidthMultiplyTexture"@), x.outline_width_multiply_texture)
        &&& opt_is::<[Number; 3]>(get(j, "parametricRimColorFactor"@), x.parametric_rim_color_factor)
        &&& opt_is::<Number>(get(j, "parametricRimFresnelPowerFactor"@), x.parametric_rim_fresnel_power_factor)
        &&& opt_is::<Number>(get(j, "parametricRimLiftFactor"@), x.parametric_rim_lift_factor)
        &&& opt_is::<i64>(get(j, "renderQueueOffsetNumber"@), x.render_queue_offset_number)
        &&& opt_is::<Number>(get(j, "rimLightingMixFactor"@), x.rim_lighting_mix_factor)
        &&& opt_is::<TextureInfo>(get(j, "rimMultiplyTexture"@), x.rim_multiply_texture)
        &&& opt_is::<[Number; 3]>(get(j, "shadeColorFactor"@), x.shade_color_factor)
        &&& opt_is::<TextureInfo>(get(j, "shadeMultiplyTexture"@), x.shade_multiply_texture)
        &&& opt_is::<Number>(get(j, "shadingShiftFactor"@), x.shading_shift_factor)
        &&& opt_is::<ShadingShiftTextureInfo>(get(j, "shadingShiftTexture"@), x.shading_shift_texture)
        &&& opt_is::<Number>(get(j, "shadingToonyFactor"@), x.shading_toony_factor)
        &&& req_is::<String>(get(j, "specVersion"@), x.spec_version)
        &&& opt_is::<bool>(get(j, "transparentWithZWrite"@), x.transparent_with_z_write)
        &&& opt_is::<TextureInfo>(get(j, "uvAnimationMaskTexture"@), x.uv_animation_mask_texture)
        &&& opt_is::<Number>(get(j, "uvAnimationRotationSpeedFactor"@), x.uv_animation_rotation_speed_factor)
        &&& opt_is::<Number>(get(j, "uvAnimationScrollXSpeedFactor"@), x.uv_animation_scroll_x_speed_factor)
        &&& opt_is::<Number>(get(j, "uvAnimationScrollYSpeedFactor"@), x.uv_animation_scroll_y_speed_factor)
    }

    /// Every map of the entity has unique keys, and so on down.
    #[verifier::opaque]
    pub open spec fn spec_wf(x: VrmcMaterialsMtoonSchema) -> bool {
        &&& opt_wf::<Extensions>(x.extensions)
        &&& opt_wf::<Number>(x.gi_equalization_factor)
        &&& opt_wf::<[Number; 3]>(x.matcap_factor)
        &&& opt_wf::<TextureInfo>(x.matcap_texture)
        &&& opt_wf::<[Number; 3]>(x.outline_color_factor)
        &&& opt_wf::<Number>(x.outline_lighting_mix_factor)
        &&& opt_wf::<Number>(x.outline_width_factor)
        &&& opt_wf::<OutlineWidthMode>(x.outline_width_mode)
        &&& opt_wf::<TextureInfo>(x.outline_width_multiply_texture)
        &&& opt_wf::<[Number; 3]>(x.parametric_rim_color_factor)
        &&& opt_wf::<Number>(x.parametric_rim_fresnel_power_factor)
        &&& opt_wf::<Number>(x.parametric_rim_lift_factor)
        &&& opt_wf::<i64>(x.render_queue_offset_number)
        &&& opt_wf::<Number>(x.rim_lighting_mix_factor)
        &&& opt_wf::<TextureInfo>(x.rim_multiply_texture)
        &&& opt_wf::<[Number; 3]>(x.shade_color_factor)
        &&& opt_wf::<TextureInfo>(x.shade_multiply_texture)
        &&& opt_wf::<Number>(x.shading_shift_factor)
        &&& opt_wf::<ShadingShiftTextureInfo>(x.shading_shift_texture)
        &&& opt_wf::<Number>(x.shading_toony_factor)
        &&& <String as Codec>::wf(x.spec_version)
        &&& opt_wf::<bool>(x.transparent_with_z_write)
        &&& opt_wf::<TextureInfo>(x.uv_animation_mask_texture)
        &&& opt_wf::<Number>(x.uv_animation_rotation_speed_factor)
        &&& opt_wf::<Number>(x.uv_animation_scroll_x_speed_factor)
        &&& opt_wf::<Number>(x.uv_animation_scroll_y_speed_factor)
    }
}

impl Codec for VrmcMaterialsMtoonSchema {
    open spec fn accepts(j: JsonView) -> bool {
        VrmcMaterialsMtoonSchema::spec_accepts(j)
    }

    open spec fn denotes(j: JsonView, x: VrmcMaterialsMtoonSchema) -> bool {
        VrmcMaterialsMtoonSchema::spec_denotes(j, x)
    }

    open spec fn wf(x: VrmcMaterialsMtoonSchema) -> bool {
        VrmcMaterialsMtoonSchema::spec_wf(x)
    }

    open spec fn encoding(x: VrmcMaterialsMtoonSchema) -> JsonView {
        JsonView::Object(
            opt_entry::<Extensions>("extensions"@, x.extensions)
            + extras_entry("extras"@, x.extras)
            + opt_entry::<Number>("giEqualizationFactor"@, x.gi_equalization_factor)
            + opt_entry::<[Number; 3]>("matcapFactor"@, x.matcap_factor)
            + opt_entry::<TextureInfo>("matcapTexture"@, x.matcap_texture)
            + opt_entry::<[Number; 3]>("outlineColorFactor"@, x.outline_color_factor)
            + opt_entry::<Number>("outlineLightingMixFactor"@, x.outline_lighting_mix_factor)
            + opt_entry::<Number>("outlineWidthFactor"@, x.outline_width_factor)
            + opt_entry::<OutlineWidthMode>("outlineWidthMode"@, x.outline_width_mode)
            + opt_entry::<TextureInfo>("outlineWidthMultiplyTexture"@, x.outline_width_multiply_texture)
            + opt_entry::<[Number; 3]>("parametricRimColorFactor"@, x.parametric_rim_color_factor)
            + opt_entry::<Number>("parametricRimFresnelPowerFactor"@, x.parametric_rim_fresnel_power_factor)
            + opt_entry::<Number>("parametricRimLiftFactor"@, x.parametric_rim_lift_factor)
            + opt_entry::<i64>("renderQueueOffsetNumber"@, x.render_queue_offset_number)
            + opt_entry::<Number>("rimLightingMixFactor"@, x.rim_lighting_mix_factor)
            + opt_entry::<TextureInfo>("rimMultiplyTexture"@, x.rim_multiply_texture)
            + opt_entry::<[Number; 3]>("shadeColorFactor"@, x.shade_color_factor)
            + opt_entry::<TextureInfo>("shadeMultiplyTexture"@, x.shade_multiply_texture)
            + opt_entry::<Number>("shadingShiftFactor"@, x.shading_shift_factor)
            + opt_entry::<ShadingShiftTextureInfo>("shadingShiftTexture"@, x.shading_shift_texture)
            + opt_entry::<Number>("shadingToonyFactor"@, x.shading_toony_factor)
            + req_entry::<String>("specVersion"@, x.spec_version)
            + opt_entry::<bool>("transparentWithZWrite"@, x.transparent_with_z_write)
            + opt_entry::<TextureInfo>("uvAnimationMaskTexture"@, x.uv_animation_mask_texture)
            + opt_entry::<Number>("uvAnimationRotationSpeedFactor"@, x.uv_animation_rotation_speed_factor)
            + opt_entry::<Number>("uvAnimationScrollXSpeedFactor"@, x.uv_animation_scroll_x_speed_factor)
            + opt_entry::<Number>("uvAnimationScrollYSpeedFactor"@, x.uv_animation_scroll_y_speed_factor)
        )
    }

    #[verifier::rlimit(100)]
    #[verifier::spinoff_prover]
    proof fn lemma_round_trip(x: VrmcMaterialsMtoonSchema) {
        broadcast use group_lookup;

        reveal(VrmcMaterialsMtoonSchema::spec_accepts);
        reveal(VrmcMaterialsMtoonSchema::spec_denotes);
        reveal(VrmcMaterialsMtoonSchema::spec_wf);
        reveal_strlit("extensions");
        reveal_strlit("extras");
        reveal_strlit("giEqualizationFactor");
        reveal_strlit("matcapFactor");
        reveal_strlit("matcapTexture");
        reveal_strlit("outlineColorFactor");
        reveal_strlit("outlineLightingMixFactor");
        reveal_strlit("outlineWidthFactor");
        reveal_strlit("outlineWidthMode");
        reveal_strlit("outlineWidthMultiplyTexture");
        reveal_strlit("parametricRimColorFactor");
        reveal_strlit("parametricRimFresnelPowerFactor");
        reveal_strlit("parametricRimLiftFactor");
        reveal_strlit("renderQueueOffsetNumber");
        reveal_strlit("rimLightingMixFactor");
        reveal_strlit("rimMultiplyTexture");
        reveal_strlit("shadeColorFactor");
        reveal_strlit("shadeMultiplyTexture");
        reveal_strlit("shadingShiftFactor");
        reveal_strlit("shadingShiftTexture");
        reveal_strlit("shadingToonyFactor");
        reveal_strlit("specVersion");
        reveal_strlit("transparentWithZWrite");
        reveal_strlit("uvAnimationMaskTexture");
        reveal_strlit("uvAnimationRotationSpeedFactor");
        reveal_strlit("uvAnimationScrollXSpeedFactor");
        reveal_strlit("uvAnimationScrollYSpeedFactor");
        assert("extensions"@.len() == 10);
        assert("extras"@.len() == 6);
        assert("giEqualizationFactor"@.len() == 20);
        assert("matcapFactor"@.len() == 12);
        assert("matcapTexture"@.len() == 13);
        assert("outlineColorFactor"@.len() == 18);
        assert("outlineLightingMixFactor"@.len() == 24);
        assert("outlineWidthFactor"@.len() == 18);
        assert("outlineWidthMode"@.len() == 16);
        assert("outlineWidthMultiplyTexture"@.len() == 27);
        assert("parametricRimColorFactor"@.len() == 24);
        assert("parametricRimFresnelPowerFactor"@.len() == 31);
        assert("parametricRimLiftFactor"@.len() == 23);
        assert("renderQueueOffsetNumber"@.len() == 23);
        assert("rimLightingMixFactor"@.len() == 20);
        assert("rimMultiplyTexture"@.len() == 18);
        assert("shadeColorFactor"@.len() == 16);
        assert("shadeMultiplyTexture"@.len() == 20);
        assert("shadingShiftFactor"@.len() == 18);
        assert("shadingShiftTexture"@.len() == 19);
        assert("shadingToonyFactor"@.len() == 18);
        assert("specVersion"@.len() == 11);
        assert("transparentWithZWrite"@.len() == 21);
        assert("uvAnimationMaskTexture"@.len() == 22);
        assert("uvAnimationRotationSpeedFactor"@.len() == 30);
        assert("uvAnimationScrollXSpeedFactor"@.len() == 29);
        assert("uvAnimationScrollYSpeedFactor"@.len() == 29);
        assert("giEqualizationFactor"@[0] != "rimLightingMixFactor"@[0]);
        assert("giEqualizationFactor"@[0] != "shadeMultiplyTexture"@[0]);
        assert("outlineColorFactor"@[7] != "outlineWidthFactor"@[7]);
        assert("outlineColorFactor"@[0] != "rimMultiplyTexture"@[0]);
        assert("outlineColorFactor"@[0] != "shadingShiftFactor"@[0]);
        assert("outlineColorFactor"@[0] != "shadingToonyFactor"@[0]);
        assert("outlineLightingMixFactor"@[0] != "parametricRimColorFactor"@[0]);
        assert("outlineWidthFactor"@[0] != "rimMultiplyTexture"@[0]);
        assert("outlineWidthFactor"@[0] != "shadingShiftFactor"@[0]);
        assert("outlineWidthFactor"@[0] != "shadingToonyFactor"@[0]);
        assert("outlineWidthMode"@[0] != "shadeColorFactor"@[0]);
        assert("parametricRimLiftFactor"@[0] != "renderQueueOffsetNumber"@[0]);
        assert("rimLightingMixFactor"@[0] != "shadeMultiplyTexture"@[0]);
        assert("rimMultiplyTexture"@[0] != "shadingShiftFactor"@[0]);
        assert("rimMultiplyTexture"@[0] != "shadingToonyFactor"@[0]);
        assert("shadingShiftFactor"@[7] != "shadingToonyFactor"@[7]);
        assert("uvAnimationScrollXSpeedFactor"@[17] != "uvAnimationScrollYSpeedFactor"@[17]);
        let e = VrmcMaterialsMtoonSchema::encoding(x);
        assert(get(e, "extensions"@) == opt_encoding(x.extensions));
        assert(get(e, "extras"@) == if x.extras@ != JsonView::Null { Some(x.extras@) } else { None });
        assert(get(e, "giEqualizationFactor"@) == opt_encoding(x.gi_equalization_factor));
        assert(get(e, "matcapFactor"@) == opt_encoding(x.matcap_factor));
        assert(get(e, "matcapTexture"@) == opt_encoding(x.matcap_texture));
        assert(get(e, "outlineColorFactor"@) == opt_encoding(x.outline_color_factor));
        assert(get(e, "outlineLightingMixFactor"@) == opt_encoding(x.outline_lighting_mix_factor));
        assert(get(e, "outlineWidthFactor"@) == opt_encoding(x.outline_width_factor));
        assert(get(e, "outlineWidthMode"@) == opt_encoding(x.outline_width_mode));
        assert(get(e, "outlineWidthMultiplyTexture"@) == opt_encoding(x.outline_width_multiply_texture));
        assert(get(e, "parametricRimColorFactor"@) == opt_encoding(x.parametric_rim_color_factor));
        assert(get(e, "parametricRimFresnelPowerFactor"@) == opt_encoding(x.parametric_rim_fresnel_power_factor));
        assert(get(e, "parametricRimLiftFactor"@) == opt_encoding(x.parametric_rim_lift_factor));
        assert(get(e, "renderQueueOffsetNumber"@) == opt_encoding(x.render_queue_offset_number));
        assert(get(e, "rimLightingMixFactor"@) == opt_encoding(x.rim_lighting_mix_factor));
        assert(get(e, "rimMultiplyTexture"@) == opt_encoding(x.rim_multiply_texture));
        assert(get(e, "shadeColorFactor"@) == opt_encoding(x.shade_color_factor));
        assert(get(e, "shadeMultiplyTexture"@) == opt_encoding(x.shade_multiply_texture));
        assert(get(e, "shadingShiftFactor"@) == opt_encoding(x.shading_shift_factor));
        assert(get(e, "shadingShiftTexture"@) == opt_encoding(x.shading_shift_texture));
        assert(get(e, "shadingToonyFactor"@) == opt_encoding(x.shading_toony_factor));
        assert(get(e, "specVersion"@) == Some(<String as Codec>::encoding(x.spec_version)));
        assert(get(e, "transparentWithZWrite"@) == opt_encoding(x.transparent_with_z_write));
        assert(get(e, "uvAnimationMaskTexture"@) == opt_encoding(x.uv_animation_mask_texture));
        assert(get(e, "uvAnimationRotationSpeedFactor"@) == opt_encoding(x.uv_animation_rotation_speed_factor));
        assert(get(e, "uvAnimationScrollXSpeedFactor"@) == opt_encoding(x.uv_animation_scroll_x_speed_factor));
        assert(get(e, "uvAnimationScrollYSpeedFactor"@) == opt_encoding(x.uv_animation_scroll_y_speed_factor));
        lemma_opt_field::<Extensions>(x.extensions);
        lemma_opt_field::<Number>(x.gi_equalization_factor);
        lemma_opt_field::<[Number; 3]>(x.matcap_factor);
        lemma_opt_field::<TextureInfo>(x.matcap_texture);
        lemma_opt_field::<[Number; 3]>(x.outline_color_factor);
        lemma_opt_field::<Number>(x.outline_lighting_mix_factor);
        lemma_opt_field::<Number>(x.outline_width_factor);
        lemma_opt_field::<OutlineWidthMode>(x.outline_width_mode);
        lemma_opt_field::<TextureInfo>(x.outline_width_multiply_texture);
        lemma_opt_field::<[Number; 3]>(x.parametric_rim_color_factor);
        lemma_opt_field::<Number>(x.parametric_rim_fresnel_power_factor);
        lemma_opt_field::<Number>(x.parametric_rim_lift_factor);
        lemma_opt_field::<i64>(x.render_queue_offset_number);
        lemma_opt_field::<Number>(x.rim_lighting_mix_factor);
        lemma_opt_field::<TextureInfo>(x.rim_multiply_texture);
        lemma_opt_field::<[Number; 3]>(x.shade_color_factor);
        lemma_opt_field::<TextureInfo>(x.shade_multiply_texture);
        lemma_opt_field::<Number>(x.shading_shift_factor);
        lemma_opt_field::<ShadingShiftTextureInfo>(x.shading_shift_texture);
        lemma_opt_field::<Number>(x.shading_toony_factor);
        lemma_req_field::<String>(x.spec_version);
        lemma_opt_field::<bool>(x.transparent_with_z_write);
        lemma_opt_field::<TextureInfo>(x.uv_animation_mask_texture);
        lemma_opt_field::<Number>(x.uv_animation_rotation_speed_factor);
        lemma_opt_field::<Number>(x.uv_animation_scroll_x_speed_factor);
        lemma_opt_field::<Number>(x.uv_animation_scroll_y_speed_factor);
    }

    fn decode(j: &Json) -> (r: Result<VrmcMaterialsMtoonSchema, DecodeError>) {
        proof {
            reveal(VrmcMaterialsMtoonSchema::spec_accepts);
            reveal(VrmcMaterialsMtoonSchema::spec_denotes);
            reveal(VrmcMaterialsMtoonSchema::spec_wf);
        }
        if !j.is_object() {
            return Err(DecodeError);
        }
        let extensions = opt_field::<Extensions>(j, "extensions")?;
        let extras = extras_field(j, "extras");
        let gi_equalization_factor = opt_field::<Number>(j, "giEqualizationFactor")?;
        let matcap_factor = opt_field::<[Number; 3]>(j, "matcapFactor")?;
        let matcap_texture = opt_field::<TextureInfo>(j, "matcapTexture")?;
        let outline_color_factor = opt_field::<[Number; 3]>(j, "outlineColorFactor")?;
        let outline_lighting_mix_factor = opt_field::<Number>(j, "outlineLightingMixFactor")?;
        let outline_width_factor = opt_field::<Number>(j, "outlineWidthFactor")?;
        let outline_width_mode = opt_field::<OutlineWidthMode>(j, "outlineWidthMode")?;
        let outline_width_multiply_texture = opt_field::<TextureInfo>(j, "outlineWidthMultiplyTexture")?;
        let parametric_rim_color_factor = opt_field::<[Number; 3]>(j, "parametricRimColorFactor")?;
        let parametric_rim_fresnel_power_factor = opt_field::<Number>(j, "parametricRimFresnelPowerFactor")?;
        let parametric_rim_lift_factor = opt_field::<Number>(j, "parametricRimLiftFactor")?;
        let render_queue_offset_number = opt_field::<i64>(j, "renderQueueOffsetNumber")?;
        let rim_lighting_mix_factor = opt_field::<Number>(j, "rimLightingMixFactor")?;
        let rim_multiply_texture = opt_field::<TextureInfo>(j, "rimMultiplyTexture")?;
        let shade_color_factor = opt_field::<[Number; 3]>(j, "shadeColorFactor")?;
        let shade_multiply_texture = opt_field::<TextureInfo>(j, "shadeMultiplyTexture")?;
        let shading_shift_factor = opt_field::<Number>(j, "shadingShiftFactor")?;
        let shading_shift_texture = opt_field::<ShadingShiftTextureInfo>(j, "shadingShiftTexture")?;
        let shading_toony_factor = opt_field::<Number>(j, "shadingToonyFactor")?;
        let spec_version = req_field::<String>(j, "specVersion")?;
        let transparent_with_z_write = opt_field::<bool>(j, "transparentWithZWrite")?;
        let uv_animation_mask_texture = opt_field::<TextureInfo>(j, "uvAnimationMaskTexture")?;
        let uv_animation_rotation_speed_factor = opt_field::<Number>(j, "uvAnimationRotationSpeedFactor")?;
        let uv_animation_scroll_x_speed_factor = opt_field::<Number>(j, "uvAnimationScrollXSpeedFactor")?;
        let uv_animation_scroll_y_speed_factor = opt_field::<Number>(j, "uvAnimationScrollYSpeedFactor")?;
        Ok(VrmcMaterialsMtoonSchema {
            extensions,
            extras,
            gi_equalization_factor,
            matcap_factor,
            matcap_texture,
            outline_color_factor,
            outline_lighting_mix_factor,
            outline_width_factor,
            outline_width_mode,
            outline_width_multiply_texture,
            parametric_rim_color_factor,
            parametric_rim_fresnel_power_factor,
            parametric_rim_lift_factor,
            render_queue_offset_number,
            rim_lighting_mix_factor,
            rim_multiply_texture,
            shade_color_factor,
            shade_multiply_texture,
            shading_shift_factor,
            shading_shift_texture,
            shading_toony_factor,
            spec_version,
            transparent_with_z_write,
            uv_animation_mask_texture,
            uv_animation_rotation_speed_factor,
            uv_animation_scroll_x_speed_factor,
            uv_animation_scroll_y_speed_factor,
        })
    }

    fn encode(&self) -> (j: Json) {
        let mut m: Vec<(String, Json)> = Vec::new();
        put_opt(&mut m, "extensions", &self.extensions);
        assert(entries_view(m@) =~= opt_entry::<Extensions>("extensions"@, self.extensions));
        put_extras(&mut m, "extras", &self.extras);
        put_opt(&mut m, "giEqualizationFactor", &self.gi_equalization_factor);
        put_opt(&mut m, "matcapFactor", &self.matcap_factor);
        put_opt(&mut m, "matcapTexture", &self.matcap_texture);
        put_opt(&mut m, "outlineColorFactor", &self.outline_color_factor);
        put_opt(&mut m, "outlineLightingMixFactor", &self.outline_lighting_mix_factor);
        put_opt(&mut m, "outlineWidthFactor", &self.outline_width_factor);
        put_opt(&mut m, "outlineWidthMode", &self.outline_width_mode);
        put_opt(&mut m, "outlineWidthMultiplyTexture", &self.outline_width_multiply_texture);
        put_opt(&mut m, "parametricRimColorFactor", &self.parametric_rim_color_factor);
        put_opt(&mut m, "parametricRimFresnelPowerFactor", &self.parametric_rim_fresnel_power_factor);
        put_opt(&mut m, "parametricRimLiftFactor", &self.parametric_rim_lift_factor);
        put_opt(&mut m, "renderQueueOffsetNumber", &self.render_queue_offset_number);
        put_opt(&mut m, "rimLightingMixFactor", &self.rim_lighting_mix_factor);
        put_opt(&mut m, "rimMultiplyTexture", &self.rim_multiply_texture);
        put_opt(&mut m, "shadeColorFactor", &self.shade_color_factor);
        put_opt(&mut m, "shadeMultiplyTexture", &self.shade_multiply_texture);
        put_opt(&mut m, "shadingShiftFactor", &self.shading_shift_factor);
        put_opt(&mut m, "shadingShiftTexture", &self.shading_shift_texture);
        put_opt(&mut m, "shadingToonyFactor", &self.shading_toony_factor);
        put_req(&mut m, "specVersion", &self.spec_version);
        put_opt(&mut m, "transparentWithZWrite", &self.transparent_with_z_write);
        put_opt(&mut m, "uvAnimationMaskTexture", &self.uv_animation_mask_texture);
        put_opt(&mut m, "uvAnimationRotationSpeedFactor", &self.uv_animation_rotation_speed_factor);
        put_opt(&mut m, "uvAnimationScrollXSpeedFactor", &self.uv_animation_scroll_x_speed_factor);
        put_opt(&mut m, "uvAnimationScrollYSpeedFactor", &self.uv_animation_scroll_y_speed_factor);
        Json::Object(m)
    }
}

/// A reference to a texture.
#[derive(Clone, Debug)]
pub struct TextureInfo {
    pub extensions: Option<Extensions>,
    pub extras: Json,
    /// The index of the texture.
    pub index: usize,
    /// The set index of the texture coordinates.
    pub tex_coord: Option<usize>,
}

impl TextureInfo {
    /// Decoding a JSON value as this entity succeeds.
    #[verifier::opaque]
    pub open spec fn spec_accepts(j: JsonView) -> bool {
        &&& j is Object
        &&& opt_ok::<Extensions>(get(j, "extensions"@))
        &&& req_ok::<usize>(get(j, "index"@))
        &&& opt_ok::<usize>(get(j, "texCoord"@))
    }

    /// `x` is the entity that the JSON value `j` decodes to.
    #[verifier::opaque]
    pub open spec fn spec_denotes(j: JsonView, x: TextureInfo) -> bool {
        &&& opt_is::<Extensions>(get(j, "extensions"@), x.extensions)
        &&& extras_is(get(j, "extras"@), x.extras)
        &&& req_is::<usize>(get(j, "index"@), x.index)
        &&& opt_is::<usize>(get(j, "texCoord"@), x.tex_coord)
    }

    /// Every map of the entity has unique keys, and so on down.
    #[verifier::opaque]
    pub open spec fn spec_wf(x: TextureInfo) -> bool {
        &&& opt_wf::<Extensions>(x.extensions)
        &&& <usize as Codec>::wf(x.index)
        &&& opt_wf::<usize>(x.tex_coord)
    }
}

impl Codec for TextureInfo {
    open spec fn accepts(j: JsonView) -> bool {
        TextureInfo::spec_accepts(j)
    }

    open spec fn denotes(j: JsonView, x: TextureInfo) -> bool {
        TextureInfo::spec_denotes(j, x)
    }

    open spec fn wf(x: TextureInfo) -> bool {
        TextureInfo::spec_wf(x)
    }

    open spec fn encoding(x: TextureInfo) -> JsonView {
        JsonView::Object(
            opt_entry::<Extensions>("extensions"@, x.extensions)
            + extras_entry("extras"@, x.extras)
            + req_entry::<usize>("index"@, x.index)
            + opt_entry::<usize>("texCoord"@, x.tex_coord)
        )
    }

    proof fn lemma_round_trip(x: TextureInfo) {
        broadcast use group_lookup;

        reveal(TextureInfo::spec_accepts);
        reveal(TextureInfo::spec_denotes);
        reveal(TextureInfo::spec_wf);
        reveal_strlit("extensions");
        reveal_strlit("extras");
        reveal_strlit("index");
        reveal_strlit("texCoord");
        assert("extensions"@.len() == 10);
        assert("extras"@.len() == 6);
        assert("index"@.len() == 5);
        assert("texCoord"@.len() == 8);
        let e = TextureInfo::encoding(x);
        assert(get(e, "extensions"@) == opt_encoding(x.extensions));
        assert(get(e, "extras"@) == if x.extras@ != JsonView::Null { Some(x.extras@) } else { None });
        assert(get(e, "index"@) == Some(<usize as Codec>::encoding(x.index)));
        assert(get(e, "texCoord"@) == opt_encoding(x.tex_coord));
        lemma_opt_field::<Extensions>(x.extensions);
        lemma_req_field::<usize>(x.index);
        lemma_opt_field::<usize>(x.tex_coord);
    }

    fn decode(j: &Json) -> (r: Result<TextureInfo, DecodeError>) {
        proof {
            reveal(TextureInfo::spec_accepts);
            reveal(TextureInfo::spec_denotes);
            reveal(TextureInfo::spec_wf);
        }
        if !j.is_object() {
            return Err(DecodeError);
        }
        let extensions = opt_field::<Extensions>(j, "extensions")?;
        let extras = extras_field(j, "extras");
        let index = req_field::<usize>(j, "index")?;
        let tex_coord = opt_field::<usize>(j, "texCoord")?;
        Ok(TextureInfo {
            extensions,
            extras,
            index,
            tex_coord,
        })
    }

    fn encode(&self) -> (j: Json) {
        let mut m: Vec<(String, Json)> = Vec::new();
        put_opt(&mut m, "extensions", &self.extensions);
        assert(entries_view(m@) =~= opt_entry::<Extensions>("extensions"@, self.extensions));
        put_extras(&mut m, "extras", &self.extras);
        put_req(&mut m, "index", &self.index);
        put_opt(&mut m, "texCoord", &self.tex_coord);
        Json::Object(m)
    }
}

/// A reference to the shading-shift texture.
#[derive(Clone, Debug)]
pub struct ShadingShiftTextureInfo {
    pub extensions: Option<Extensions>,
    pub extras: Json,
    /// The index of the texture.
    pub index: usize,
    /// The scale applied to the texture.
    pub scale: Option<Number>,
    /// The set index of the texture coordinates.
    pub tex_coord: Option<usize>,
}

impl ShadingShiftTextureInfo {
    /// Decoding a JSON value as this entity succeeds.
    #[verifier::opaque]
    pub open spec fn spec_accepts(j: JsonView) -> bool {
        &&& j is Object
        &&& opt_ok::<Extensions>(get(j, "extensions"@))
        &&& req_ok::<usize>(get(j, "index"@))
        &&& opt_ok::<Number>(get(j, "scale"@))
        &&& opt_ok::<usize>(get(j, "texCoord"@))
    }

    /// `x` is the entity that the JSON value `j` decodes to.
    #[verifier::opaque]
    pub open spec fn spec_denotes(j: JsonView, x: ShadingShiftTextureInfo) -> bool {
        &&& opt_is::<Extensions>(get(j, "extensions"@), x.extensions)
        &&& extras_is(get(j, "extras"@), x.extras)
        &&& req_is::<usize>(get(j, "index"@), x.index)
        &&& opt_is::<Number>(get(j, "scale"@), x.scale)
        &&& opt_is::<usize>(get(j, "texCoord"@), x.tex_coord)
    }

    /// Every map of the entity has unique keys, and so on down.
    #[verifier::opaque]
    pub open spec fn spec_wf(x: ShadingShiftTextureInfo) -> bool {
        &&& opt_wf::<Extensions>(x.extensions)
        &&& <usize as Codec>::wf(x.index)
        &&& opt_wf::<Number>(x.scale)
        &&& opt_wf::<usize>(x.tex_coord)
    }
}

impl Codec for ShadingShiftTextureInfo {
    open spec fn accepts(j: JsonView) -> bool {
        ShadingShiftTextureInfo::spec_accepts(j)
    }

    open spec fn denotes(j: JsonView, x: ShadingShiftTextureInfo) -> bool {
        ShadingShiftTextureInfo::spec_denotes(j, x)
    }

    open spec fn wf(x: ShadingShiftTextureInfo) -> bool {
        ShadingShiftTextureInfo::spec_wf(x)
    }

    open spec fn encoding(x: ShadingShiftTextureInfo) -> JsonView {
        JsonView::Object(
            opt_entry::<Extensions>("extensions"@, x.extensions)
            + extras_entry("extras"@, x.extras)
            + req_entry::<usize>("index"@, x.index)
            + opt_entry::<Number>("scale"@, x.scale)
            + opt_entry::<usize>("texCoord"@, x.tex_coord)
        )
    }

    proof fn lemma_round_trip(x: ShadingShiftTextureInfo) {
        broadcast use group_lookup;

        reveal(ShadingShiftTextureInfo::spec_accepts);
        reveal(ShadingShiftTextureInfo::spec_denotes);
        reveal(ShadingShiftTextureInfo::spec_wf);
        reveal_strlit("extensions");
        reveal_strlit("extras");
        reveal_strlit("index");
        reveal_strlit("scale");
        reveal_strlit("texCoord");
        assert("extensions"@.len() == 10);
        assert("extras"@.len() == 6);
        assert("index"@.len() == 5);
        assert("scale"@.len() == 5);
        assert("texCoord"@.len() == 8);
        assert("index"@[0] != "scale"@[0]);
        let e = ShadingShiftTextureInfo::encoding(x);
        assert(get(e, "extensions"@) == opt_encoding(x.extensions));
        assert(get(e, "extras"@) == if x.extras@ != JsonView::Null { Some(x.extras@) } else { None });
        assert(get(e, "index"@) == Some(<usize as Codec>::encoding(x.index)));
        assert(get(e, "scale"@) == opt_encoding(x.scale));
        assert(get(e, "texCoord"@) == opt_encoding(x.tex_coord));
        lemma_opt_field::<Extensions>(x.extensions);
        lemma_req_field::<usize>(x.index);
        lemma_opt_field::<Number>(x.scale);
        lemma_opt_field::<usize>(x.tex_coord);
    }

    fn decode(j: &Json) -> (r: Result<ShadingShiftTextureInfo, DecodeError>) {
        proof {
            reveal(ShadingShiftTextureInfo::spec_accepts);
            reveal(ShadingShiftTextureInfo::spec_denotes);
            reveal(ShadingShiftTextureInfo::spec_wf);
        }
        if !j.is_object() {
            return Err(DecodeError);
        }
        let extensions = opt_field::<Extensions>(j, "extensions")?;
        let extras = extras_field(j, "extras");
        let index = req_field::<usize>(j, "index")?;
        let scale = opt_field::<Number>(j, "scale")?;
        let tex_coord = opt_field::<usize>(j, "texCoord")?;
        Ok(ShadingShiftTextureInfo {
            extensions,
            extras,
            index,
            scale,
            tex_coord,
        })
    }

    fn encode(&self) -> (j: Json) {
        let mut m: Vec<(String, Json)> = Vec::new();
        put_opt(&mut m, "extensions", &self.extensions);
        assert(entries_view(m@) =~= opt_entry::<Extensions>("extensions"@, self.extensions));
        put_extras(&mut m, "extras", &self.extras);
        put_req(&mut m, "index", &self.index);
        put_opt(&mut m, "scale", &self.scale);
        put_opt(&mut m, "texCoord", &self.tex_coord);
        Json::Object(m)
    }
}

/// How the outline width is measured.
#[derive(Clone, Copy, Debug, PartialEq, Eq, Hash, Structural)]
pub enum OutlineWidthMode {
    /// No outline is drawn.
    NoOutline,
    ScreenCoordinates,
    WorldCoordinates,
}

impl Name for OutlineWidthMode {
    open spec fn name(self) -> Seq<char> {
        match self {
            OutlineWidthMode::NoOutline => "none"@,
            OutlineWidthMode::ScreenCoordinates => "screenCoordinates"@,
            OutlineWidthMode::WorldCoordinates => "worldCoordinates"@,
        }
    }

    open spec fn is_name(s: Seq<char>) -> bool {
        s == "none"@
        || s == "screenCoordinates"@
        || s == "worldCoordinates"@
    }

    proof fn lemma_name_is_name(x: OutlineWidthMode) {
    }

    fn from_name(s: &String) -> (r: Option<OutlineWidthMode>) {
        if eq_str(s, "none") {
            Some(OutlineWidthMode::NoOutline)
        } else if eq_str(s, "screenCoordinates") {
            Some(OutlineWidthMode::ScreenCoordinates)
        } else if eq_str(s, "worldCoordinates") {
            Some(OutlineWidthMode::WorldCoordinates)
        } else {
            None
        }
    }

    fn to_name(&self) -> (r: String) {
        match self {
            OutlineWidthMode::NoOutline => "none".to_owned(),
            OutlineWidthMode::ScreenCoordinates => "screenCoordinates".to_owned(),
            OutlineWidthMode::WorldCoordinates => "worldCoordinates".to_owned(),
        }
    }
}

impl Codec for OutlineWidthMode {
    open spec fn accepts(j: JsonView) -> bool {
        j matches JsonView::String(s) && OutlineWidthMode::is_name(s)
    }

    open spec fn denotes(j: JsonView, x: OutlineWidthMode) -> bool {
        j == JsonView::String(x.name())
    }

    open spec fn encoding(x: OutlineWidthMode) -> JsonView {
        JsonView::String(x.name())
    }

    open spec fn wf(x: OutlineWidthMode) -> bool {
        true
    }

    proof fn lemma_round_trip(x: OutlineWidthMode) {
        OutlineWidthMode::lemma_name_is_name(x);
    }

    fn decode(j: &Json) -> (r: Result<OutlineWidthMode, DecodeError>) {
        match j {
            Json::String(s) => match OutlineWidthMode::from_name(s) {
                Some(x) => Ok(x),
                None => Err(DecodeError),
            },
            _ => Err(DecodeError),
        }
    }

    fn encode(&self) -> (j: Json) {
        Json::String(self.to_name())
    }
}

/// Decoding the encoding of a well-formed MToon extension object gives it back.
pub proof fn lemma_mtoon_round_trip(x: VrmcMaterialsMtoonSchema)
    requires
        VrmcMaterialsMtoonSchema::wf(x),
    ensures
        VrmcMaterialsMtoonSchema::accepts(VrmcMaterialsMtoonSchema::encoding(x)),
        VrmcMaterialsMtoonSchema::denotes(VrmcMaterialsMtoonSchema::encoding(x), x),
{
    VrmcMaterialsMtoonSchema::lemma_round_trip(x);
}

} // verus!
