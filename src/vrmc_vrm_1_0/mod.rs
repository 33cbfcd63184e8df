//! Data structures for the `VRMC_vrm` 1.0 glTF extension.
pub mod expression_preset_name;
pub mod human_bone_name;

use vstd::prelude::*;
use crate::json::{Json, JsonView, Number, get, entries_view};
use crate::codec::{
    Codec, opt_encoding, opt_wf, DecodeError, Extensions, Name, NameMap, StringMap, eq_str, opt_ok,
    opt_is, req_ok, req_is, extras_is, opt_entry, req_entry, extras_entry, group_lookup,
    lemma_opt_field, lemma_req_field, opt_field, req_field, extras_field, put_opt, put_req,
    put_extras,
};
pub use expression_preset_name::ExpressionPresetName;
pub use human_bone_name::HumanBoneName;

verus! {

/// The name of the VRM 1.0 extension in a glTF document.
pub const VRMC_VRM: &'static str = "VRMC_vrm";

/// The preset expressions, by name.
pub type Preset = NameMap<ExpressionPresetName, Expression>;

/// The bones of the humanoid, by name; a bone may be given as `null`.
pub type HumanBones = NameMap<HumanBoneName, Option<HumanBone>>;

/// The root of the VRM 1.0 extension.
#[derive(Clone, Debug)]
pub struct VRMCVrmSchema {
    pub expressions: Option<Expressions>,
    pub extensions: Option<Extensions>,
    pub extras: Json,
    pub first_person: Option<FirstPerson>,
    pub humanoid: Humanoid,
    pub look_at: Option<LookAt>,
    pub meta: Meta,
    /// Specification version of VRMC_vrm.
    pub spec_version: String,
}

impl VRMCVrmSchema {
    /// Decoding a JSON value as this entity succeeds.
    #[verifier::opaque]
    pub open spec fn spec_accepts(j: JsonView) -> bool {
        &&& j is Object
        &&& opt_ok::<Expressions>(get(j, "expressions"@))
        &&& opt_ok::<Extensions>(get(j, "extensions"@))
        &&& opt_ok::<FirstPerson>(get(j, "firstPerson"@))
        &&& req_ok::<Humanoid>(get(j, "humanoid"@))
        &&& opt_ok::<LookAt>(get(j, "lookAt"@))
        &&& req_ok::<Meta>(get(j, "meta"@))
        &&& req_ok::<String>(get(j, "specVersion"@))
    }

    /// `x` is the entity that the JSON value `j` decodes to.
    #[verifier::opaque]
    pub open spec fn spec_denotes(j: JsonView, x: VRMCVrmSchema) -> bool {
        &&& opt_is::<Expressions>(get(j, "expressions"@), x.expressions)
        &&& opt_is::<Extensions>(get(j, "extensions"@), x.extensions)
        &&& extras_is(get(j, "extras"@), x.extras)
        &&& opt_is::<FirstPerson>(get(j, "firstPerson"@), x.first_person)
        &&& req_is::<Humanoid>(get(j, "humanoid"@), x.humanoid)
        &&& opt_is::<LookAt>(get(j, "lookAt"@), x.look_at)
        &&& req_is::<Meta>(get(j, "meta"@), x.meta)
        &&& req_is::<String>(get(j, "specVersion"@), x.spec_version)
    }

    /// Every map of the entity has unique keys, and so on down.
    #[verifier::opaque]
    pub open spec fn spec_wf(x: VRMCVrmSchema) -> bool {
        &&& opt_wf::<Expressions>(x.expressions)
        &&& opt_wf::<Extensions>(x.extensions)
        &&& opt_wf::<FirstPerson>(x.first_person)
        &&& <Humanoid as Codec>::wf(x.humanoid)
        &&& opt_wf::<LookAt>(x.look_at)
        &&& <Meta as Codec>::wf(x.meta)
        &&& <String as Codec>::wf(x.spec_version)
    }
}

impl Codec for VRMCVrmSchema {
    open spec fn accepts(j: JsonView) -> bool {
        VRMCVrmSchema::spec_accepts(j)
    }

    open spec fn denotes(j: JsonView, x: VRMCVrmSchema) -> bool {
        VRMCVrmSchema::spec_denotes(j, x)
    }

    open spec fn wf(x: VRMCVrmSchema) -> bool {
        VRMCVrmSchema::spec_wf(x)
    }

    open spec fn encoding(x: VRMCVrmSchema) -> JsonView {
        JsonView::Object(
            opt_entry::<Expressions>("expressions"@, x.expressions)
            + opt_entry::<Extensions>("extensions"@, x.extensions)
            + extras_entry("extras"@, x.extras)
            + opt_entry::<FirstPerson>("firstPerson"@, x.first_person)
            + req_entry::<Humanoid>("humanoid"@, x.humanoid)
            + opt_entry::<LookAt>("lookAt"@, x.look_at)
            + req_entry::<Meta>("meta"@, x.meta)
            + req_entry::<String>("specVersion"@, x.spec_version)
        )
    }

    proof fn lemma_round_trip(x: VRMCVrmSchema) {
        broadcast use group_lookup;

        reveal(VRMCVrmSchema::spec_accepts);
        reveal(VRMCVrmSchema::spec_denotes);
        reveal(VRMCVrmSchema::spec_wf);
        reveal_strlit("expressions");
        reveal_strlit("extensions");
        reveal_strlit("extras");
        reveal_strlit("firstPerson");
        reveal_strlit("humanoid");
        reveal_strlit("lookAt");
        reveal_strlit("meta");
        reveal_strlit("specVersion");
        assert("expressions"@.len() == 11);
        assert("extensions"@.len() == 10);
        assert("extras"@.len() == 6);
        assert("firstPerson"@.len() == 11);
        assert("humanoid"@.len() == 8);
        assert("lookAt"@.len() == 6);
        assert("meta"@.len() == 4);
        assert("specVersion"@.len() == 11);
        assert("expressions"@[0] != "firstPerson"@[0]);
        assert("expressions"@[0] != "specVersion"@[0]);
        assert("extras"@[0] != "lookAt"@[0]);
        assert("firstPerson"@[0] != "specVersion"@[0]);
        let e = VRMCVrmSchema::encoding(x);
        assert(get(e, "expressions"@) == opt_encoding(x.expressions));
        assert(get(e, "extensions"@) == opt_encoding(x.extensions));
        assert(get(e, "extras"@) == if x.extras@ != JsonView::Null { Some(x.extras@) } else { None });
        assert(get(e, "firstPerson"@) == opt_encoding(x.first_person));
        assert(get(e, "humanoid"@) == Some(<Humanoid as Codec>::encoding(x.humanoid)));
        assert(get(e, "lookAt"@) == opt_encoding(x.look_at));
        assert(get(e, "meta"@) == Some(<Meta as Codec>::encoding(x.meta)));
        assert(get(e, "specVersion"@) == Some(<String as Codec>::encoding(x.spec_version)));
        lemma_opt_field::<Expressions>(x.expressions);
        lemma_opt_field::<Extensions>(x.extensions);
        lemma_opt_field::<FirstPerson>(x.first_person);
        lemma_req_field::<Humanoid>(x.humanoid);
        lemma_opt_field::<LookAt>(x.look_at);
        lemma_req_field::<Meta>(x.meta);
        lemma_req_field::<String>(x.spec_version);
    }

    fn decode(j: &Json) -> (r: Result<VRMCVrmSchema, DecodeError>) {
        proof {
            reveal(VRMCVrmSchema::spec_accepts);
            reveal(VRMCVrmSchema::spec_denotes);
            reveal(VRMCVrmSchema::spec_wf);
        }
        if !j.is_object() {
            return Err(DecodeError);
        }
        let expressions = opt_field::<Expressions>(j, "expressions")?;
        let extensions = opt_field::<Extensions>(j, "extensions")?;
        let extras = extras_field(j, "extras");
        let first_person = opt_field::<FirstPerson>(j, "firstPerson")?;
        let humanoid = req_field::<Humanoid>(j, "humanoid")?;
        let look_at = opt_field::<LookAt>(j, "lookAt")?;
        let meta = req_field::<Meta>(j, "meta")?;
        let spec_version = req_field::<String>(j, "specVersion")?;
        Ok(VRMCVrmSchema {
            expressions,
            extensions,
            extras,
            first_person,
            humanoid,
            look_at,
            meta,
            spec_version,
        })
    }

    fn encode(&self) -> (j: Json) {
        let mut m: Vec<(String, Json)> = Vec::new();
        put_opt(&mut m, "expressions", &self.expressions);
        assert(entries_view(m@) =~= opt_entry::<Expressions>("expressions"@, self.expressions));
        put_opt(&mut m, "extensions", &self.extensions);
        put_extras(&mut m, "extras", &self.extras);
        put_opt(&mut m, "firstPerson", &self.first_person);
        put_req(&mut m, "humanoid", &self.humanoid);
        put_opt(&mut m, "lookAt", &self.look_at);
        put_req(&mut m, "meta", &self.meta);
        put_req(&mut m, "specVersion", &self.spec_version);
        Json::Object(m)
    }
}

/// The expressions of the avatar.
#[derive(Clone, Debug)]
pub struct Expressions {
    /// Custom expressions, by name.
    pub custom: Option<StringMap<Expression>>,
    pub extensions: Option<Extensions>,
    pub extras: Json,
    /// Preset expressions, by preset name.
    pub preset: Option<Preset>,
}

impl Expressions {
    /// Decoding a JSON value as this entity succeeds.
    #[verifier::opaque]
    pub open spec fn spec_accepts(j: JsonView) -> bool {
        &&& j is Object
        &&& opt_ok::<StringMap<Expression>>(get(j, "custom"@))
        &&& opt_ok::<Extensions>(get(j, "extensions"@))
        &&& opt_ok::<Preset>(get(j, "preset"@))
    }

    /// `x` is the entity that the JSON value `j` decodes to.
    #[verifier::opaque]
    pub open spec fn spec_denotes(j: JsonView, x: Expressions) -> bool {
        &&& opt_is::<StringMap<Expression>>(get(j, "custom"@), x.custom)
        &&& opt_is::<Extensions>(get(j, "extensions"@), x.extensions)
        &&& extras_is(get(j, "extras"@), x.extras)
        &&& opt_is::<Preset>(get(j, "preset"@), x.preset)
    }

    /// Every map of the entity has unique keys, and so on down.
    #[verifier::opaque]
    pub open spec fn spec_wf(x: Expressions) -> bool {
        &&& opt_wf::<StringMap<Expression>>(x.custom)
        &&& opt_wf::<Extensions>(x.extensions)
        &&& opt_wf::<Preset>(x.preset)
    }
}

impl Codec for Expressions {
    open spec fn accepts(j: JsonView) -> bool {
        Expressions::spec_accepts(j)
    }

    open spec fn denotes(j: JsonView, x: Expressions) -> bool {
        Expressions::spec_denotes(j, x)
    }

    open spec fn wf(x: Expressions) -> bool {
        Expressions::spec_wf(x)
    }

    open spec fn encoding(x: Expressions) -> JsonView {
        JsonView::Object(
            opt_entry::<StringMap<Expression>>("custom"@, x.custom)
            + opt_entry::<Extensions>("extensions"@, x.extensions)
            + extras_entry("extras"@, x.extras)
            + opt_entry::<Preset>("preset"@, x.preset)
        )
    }

    proof fn lemma_round_trip(x: Expressions) {
        broadcast use group_lookup;

        reveal(Expressions::spec_accepts);
        reveal(Expressions::spec_denotes);
        reveal(Expressions::spec_wf);
        reveal_strlit("custom");
        reveal_strlit("extensions");
        reveal_strlit("extras");
        reveal_strlit("preset");
        assert("custom"@.len() == 6);
        assert("extensions"@.len() == 10);
        assert("extras"@.len() == 6);
        assert("preset"@.len() == 6);
        assert("custom"@[0] != "extras"@[0]);
        assert("custom"@[0] != "preset"@[0]);
        assert("extras"@[0] != "preset"@[0]);
        let e = Expressions::encoding(x);
        assert(get(e, "custom"@) == opt_encoding(x.custom));
        assert(get(e, "extensions"@) == opt_encoding(x.extensions));
        assert(get(e, "extras"@) == if x.extras@ != JsonView::Null { Some(x.extras@) } else { None });
        assert(get(e, "preset"@) == opt_encoding(x.preset));
        lemma_opt_field::<StringMap<Expression>>(x.custom);
        lemma_opt_field::<Extensions>(x.extensions);
        lemma_opt_field::<Preset>(x.preset);
    }

    fn decode(j: &Json) -> (r: Result<Expressions, DecodeError>) {
        proof {
            reveal(Expressions::spec_accepts);
            reveal(Expressions::spec_denotes);
            reveal(Expressions::spec_wf);
        }
        if !j.is_object() {
            return Err(DecodeError);
        }
        let custom = opt_field::<StringMap<Expression>>(j, "custom")?;
        let extensions = opt_field::<Extensions>(j, "extensions")?;
        let extras = extras_field(j, "extras");
        let preset = opt_field::<Preset>(j, "preset")?;
        Ok(Expressions {
            custom,
            extensions,
            extras,
            preset,
        })
    }

    fn encode(&self) -> (j: Json) {
        let mut m: Vec<(String, Json)> = Vec::new();
        put_opt(&mut m, "custom", &self.custom);
        assert(entries_view(m@) =~= opt_entry::<StringMap<Expression>>("custom"@, self.custom));
        put_opt(&mut m, "extensions", &self.extensions);
        put_extras(&mut m, "extras", &self.extras);
        put_opt(&mut m, "preset", &self.preset);
        Json::Object(m)
    }
}

/// A facial pose: morph targets, material colors and texture transforms.
#[derive(Clone, Debug)]
pub struct Expression {
    pub extensions: Option<Extensions>,
    pub extras: Json,
    /// Whether the weight of the expression is rounded to 0 or 1.
    pub is_binary: Option<bool>,
    pub material_color_binds: Option<Vec<MaterialColorBind>>,
    pub morph_target_binds: Option<Vec<MorphTargetBind>>,
    pub override_blink: Option<ExpressionOverrideType>,
    pub override_look_at: Option<ExpressionOverrideType>,
    pub override_mouth: Option<ExpressionOverrideType>,
    pub texture_transform_binds: Option<Vec<TextureTransformBind>>,
}

impl Expression {
    /// Decoding a JSON value as this entity succeeds.
    #[verifier::opaque]
    pub open spec fn spec_accepts(j: JsonView) -> bool {
        &&& j is Object
        &&& opt_ok::<Extensions>(get(j, "extensions"@))
        &&& opt_ok::<bool>(get(j, "isBinary"@))
        &&& opt_ok::<Vec<MaterialColorBind>>(get(j, "materialColorBinds"@))
        &&& opt_ok::<Vec<MorphTargetBind>>(get(j, "morphTargetBinds"@))
        &&& opt_ok::<ExpressionOverrideType>(get(j, "overrideBlink"@))
        &&& opt_ok::<ExpressionOverrideType>(get(j, "overrideLookAt"@))
        &&& opt_ok::<ExpressionOverrideType>(get(j, "overrideMouth"@))
        &&& opt_ok::<Vec<TextureTransformBind>>(get(j, "textureTransformBinds"@))
    }

    /// `x` is the entity that the JSON value `j` decodes to.
    #[verifier::opaque]
    pub open spec fn spec_denotes(j: JsonView, x: Expression) -> bool {
        &&& opt_is::<Extensions>(get(j, "extensions"@), x.extensions)
        &&& extras_is(get(j, "extras"@), x.extras)
        &&& opt_is::<bool>(get(j, "isBinary"@), x.is_binary)
        &&& opt_is::<Vec<MaterialColorBind>>(get(j, "materialColorBinds"@), x.material_color_binds)
        &&& opt_is::<Vec<MorphTargetBind>>(get(j, "morphTargetBinds"@), x.morph_target_binds)
        &&& opt_is::<ExpressionOverrideType>(get(j, "overrideBlink"@), x.override_blink)
        &&& opt_is::<ExpressionOverrideType>(get(j, "overrideLookAt"@), x.override_look_at)
        &&& opt_is::<ExpressionOverrideType>(get(j, "overrideMouth"@), x.override_mouth)
        &&& opt_is::<Vec<TextureTransformBind>>(get(j, "textureTransformBinds"@), x.texture_transform_binds)
    }

    /// Every map of the entity has unique keys, and so on down.
    #[verifier::opaque]
    pub open spec fn spec_wf(x: Expression) -> bool {
        &&& opt_wf::<Extensions>(x.extensions)
        &&& opt_wf::<bool>(x.is_binary)
        &&& opt_wf::<Vec<MaterialColorBind>>(x.material_color_binds)
        &&& opt_wf::<Vec<MorphTargetBind>>(x.morph_target_binds)
        &&& opt_wf::<ExpressionOverrideType>(x.override_blink)
        &&& opt_wf::<ExpressionOverrideType>(x.override_look_at)
        &&& opt_wf::<ExpressionOverrideType>(x.override_mouth)
        &&& opt_wf::<Vec<TextureTransformBind>>(x.texture_transform_binds)
    }
}

impl Codec for Expression {
    open spec fn accepts(j: JsonView) -> bool {
        Expression::spec_accepts(j)
    }

    open spec fn denotes(j: JsonView, x: Expression) -> bool {
        Expression::spec_denotes(j, x)
    }

    open spec fn wf(x: Expression) -> bool {
        Expression::spec_wf(x)
    }

    open spec fn encoding(x: Expression) -> JsonView {
        JsonView::Object(
            opt_entry::<Extensions>("extensions"@, x.extensions)
            + extras_entry("extras"@, x.extras)
            + opt_entry::<bool>("isBinary"@, x.is_binary)
            + opt_entry::<Vec<MaterialColorBind>>("materialColorBinds"@, x.material_color_binds)
            + opt_entry::<Vec<MorphTargetBind>>("morphTargetBinds"@, x.morph_target_binds)
            + opt_entry::<ExpressionOverrideType>("overrideBlink"@, x.override_blink)
            + opt_entry::<ExpressionOverrideType>("overrideLookAt"@, x.override_look_at)
            + opt_entry::<ExpressionOverrideType>("overrideMouth"@, x.override_mouth)
            + opt_entry::<Vec<TextureTransformBind>>("textureTransformBinds"@, x.texture_transform_binds)
        )
    }

    proof fn lemma_round_trip(x: Expression) {
        broadcast use group_lookup;

        reveal(Expression::spec_accepts);
        reveal(Expression::spec_denotes);
        reveal(Expression::spec_wf);
        reveal_strlit("extensions");
        reveal_strlit("extras");
        reveal_strlit("isBinary");
        reveal_strlit("materialColorBinds");
        reveal_strlit("morphTargetBinds");
        reveal_strlit("overrideBlink");
        reveal_strlit("overrideLookAt");
        reveal_strlit("overrideMouth");
        reveal_strlit("textureTransformBinds");
        assert("extensions"@.len() == 10);
        assert("extras"@.len() == 6);
        assert("isBinary"@.len() == 8);
        assert("materialColorBinds"@.len() == 18);
        assert("morphTargetBinds"@.len() == 16);
        assert("overrideBlink"@.len() == 13);
        assert("overrideLookAt"@.len() == 14);
        assert("overrideMouth"@.len() == 13);
        assert("textureTransformBinds"@.len() == 21);
        assert("overrideBlink"@[8] != "overrideMouth"@[8]);
        let e = Expression::encoding(x);
        assert(get(e, "extensions"@) == opt_encoding(x.extensions));
        assert(get(e, "extras"@) == if x.extras@ != JsonView::Null { Some(x.extras@) } else { None });
        assert(get(e, "isBinary"@) == opt_encoding(x.is_binary));
        assert(get(e, "materialColorBinds"@) == opt_encoding(x.material_color_binds));
        assert(get(e, "morphTargetBinds"@) == opt_encoding(x.morph_target_binds));
        assert(get(e, "overrideBlink"@) == opt_encoding(x.override_blink));
        assert(get(e, "overrideLookAt"@) == opt_encoding(x.override_look_at));
        assert(get(e, "overrideMouth"@) == opt_encoding(x.override_mouth));
        assert(get(e, "textureTransformBinds"@) == opt_encoding(x.texture_transform_binds));
        lemma_opt_field::<Extensions>(x.extensions);
        lemma_opt_field::<bool>(x.is_binary);
        lemma_opt_field::<Vec<MaterialColorBind>>(x.material_color_binds);
        lemma_opt_field::<Vec<MorphTargetBind>>(x.morph_target_binds);
        lemma_opt_field::<ExpressionOverrideType>(x.override_blink);
        lemma_opt_field::<ExpressionOverrideType>(x.override_look_at);
        lemma_opt_field::<ExpressionOverrideType>(x.override_mouth);
        lemma_opt_field::<Vec<TextureTransformBind>>(x.texture_transform_binds);
    }

    fn decode(j: &Json) -> (r: Result<Expression, DecodeError>) {
        proof {
            reveal(Expression::spec_accepts);
            reveal(Expression::spec_denotes);
            reveal(Expression::spec_wf);
        }
        if !j.is_object() {
            return Err(DecodeError);
        }
        let extensions = opt_field::<Extensions>(j, "extensions")?;
        let extras = extras_field(j, "extras");
        let is_binary = opt_field::<bool>(j, "isBinary")?;
        let material_color_binds = opt_field::<Vec<MaterialColorBind>>(j, "materialColorBinds")?;
        let morph_target_binds = opt_field::<Vec<MorphTargetBind>>(j, "morphTargetBinds")?;
        let override_blink = opt_field::<ExpressionOverrideType>(j, "overrideBlink")?;
        let override_look_at = opt_field::<ExpressionOverrideType>(j, "overrideLookAt")?;
        let override_mouth = opt_field::<ExpressionOverrideType>(j, "overrideMouth")?;
        let texture_transform_binds = opt_field::<Vec<TextureTransformBind>>(j, "textureTransformBinds")?;
        Ok(Expression {
            extensions,
            extras,
            is_binary,
            material_color_binds,
            morph_target_binds,
            override_blink,
            override_look_at,
            override_mouth,
            texture_transform_binds,
        })
    }

    fn encode(&self) -> (j: Json) {
        let mut m: Vec<(String, Json)> = Vec::new();
        put_opt(&mut m, "extensions", &self.extensions);
        assert(entries_view(m@) =~= opt_entry::<Extensions>("extensions"@, self.extensions));
        put_extras(&mut m, "extras", &self.extras);
        put_opt(&mut m, "isBinary", &self.is_binary);
        put_opt(&mut m, "materialColorBinds", &self.material_color_binds);
        put_opt(&mut m, "morphTargetBinds", &self.morph_target_binds);
        put_opt(&mut m, "overrideBlink", &self.override_blink);
        put_opt(&mut m, "overrideLookAt", &self.override_look_at);
        put_opt(&mut m, "overrideMouth", &self.override_mouth);
        put_opt(&mut m, "textureTransformBinds", &self.texture_transform_binds);
        Json::Object(m)
    }
}

/// A material color that the expression animates.
#[derive(Clone, Debug)]
pub struct MaterialColorBind {
    pub extensions: Option<Extensions>,
    pub extras: Json,
    /// The index of the material.
    pub material: usize,
    /// The target color.
    pub target_value: Vec<Number>,
    pub material_color_bind_type: MaterialColorType,
}

impl MaterialColorBind {
    /// Decoding a JSON value as this entity succeeds.
    #[verifier::opaque]
    pub open spec fn spec_accepts(j: JsonView) -> bool {
        &&& j is Object
        &&& opt_ok::<Extensions>(get(j, "extensions"@))
        &&& req_ok::<usize>(get(j, "material"@))
        &&& req_ok::<Vec<Number>>(get(j, "targetValue"@))
        &&& req_ok::<MaterialColorType>(get(j, "materialColorBindType"@))
    }

    /// `x` is the entity that the JSON value `j` decodes to.
    #[verifier::opaque]
    pub open spec fn spec_denotes(j: JsonView, x: MaterialColorBind) -> bool {
        &&& opt_is::<Extensions>(get(j, "extensions"@), x.extensions)
        &&& extras_is(get(j, "extras"@), x.extras)
        &&& req_is::<usize>(get(j, "material"@), x.material)
        &&& req_is::<Vec<Number>>(get(j, "targetValue"@), x.target_value)
        &&& req_is::<MaterialColorType>(get(j, "materialColorBindType"@), x.material_color_bind_type)
    }

    /// Every map of the entity has unique keys, and so on down.
    #[verifier::opaque]
    pub open spec fn spec_wf(x: MaterialColorBind) -> bool {
        &&& opt_wf::<Extensions>(x.extensions)
        &&& <usize as Codec>::wf(x.material)
        &&& <Vec<Number> as Codec>::wf(x.target_value)
        &&& <MaterialColorType as Codec>::wf(x.material_color_bind_type)
    }
}

impl Codec for MaterialColorBind {
    open spec fn accepts(j: JsonView) -> bool {
        MaterialColorBind::spec_accepts(j)
    }

    open spec fn denotes(j: JsonView, x: MaterialColorBind) -> bool {
        MaterialColorBind::spec_denotes(j, x)
    }

    open spec fn wf(x: MaterialColorBind) -> bool {
        MaterialColorBind::spec_wf(x)
    }

    open spec fn encoding(x: MaterialColorBind) -> JsonView {
        JsonView::Object(
            opt_entry::<Extensions>("extensions"@, x.extensions)
            + extras_entry("extras"@, x.extras)
            + req_entry::<usize>("material"@, x.material)
            + req_entry::<Vec<Number>>("targetValue"@, x.target_value)
            + req_entry::<MaterialColorType>("materialColorBindType"@, x.material_color_bind_type)
        )
    }

    proof fn lemma_round_trip(x: MaterialColorBind) {
        broadcast use group_lookup;

        reveal(MaterialColorBind::spec_accepts);
        reveal(MaterialColorBind::spec_denotes);
        reveal(MaterialColorBind::spec_wf);
        reveal_strlit("extensions");
        reveal_strlit("extras");
        reveal_strlit("material");
        reveal_strlit("targetValue");
        reveal_strlit("materialColorBindType");
        assert("extensions"@.len() == 10);
        assert("extras"@.len() == 6);
        assert("material"@.len() == 8);
        assert("targetValue"@.len() == 11);
        assert("materialColorBindType"@.len() == 21);
        let e = MaterialColorBind::encoding(x);
        assert(get(e, "extensions"@) == opt_encoding(x.extensions));
        assert(get(e, "extras"@) == if x.extras@ != JsonView::Null { Some(x.extras@) } else { None });
        assert(get(e, "material"@) == Some(<usize as Codec>::encoding(x.material)));
        assert(get(e, "targetValue"@) == Some(<Vec<Number> as Codec>::encoding(x.target_value)));
        assert(get(e, "materialColorBindType"@) == Some(<MaterialColorType as Codec>::encoding(x.material_color_bind_type)));
        lemma_opt_field::<Extensions>(x.extensions);
        lemma_req_field::<usize>(x.material);
        lemma_req_field::<Vec<Number>>(x.target_value);
        lemma_req_field::<MaterialColorType>(x.material_color_bind_type);
    }

    fn decode(j: &Json) -> (r: Result<MaterialColorBind, DecodeError>) {
        proof {
            reveal(MaterialColorBind::spec_accepts);
            reveal(MaterialColorBind::spec_denotes);
            reveal(MaterialColorBind::spec_wf);
        }
        if !j.is_object() {
            return Err(DecodeError);
        }
        let extensions = opt_field::<Extensions>(j, "extensions")?;
        let extras = extras_field(j, "extras");
        let material = req_field::<usize>(j, "material")?;
        let target_value = req_field::<Vec<Number>>(j, "targetValue")?;
        let material_color_bind_type = req_field::<MaterialColorType>(j, "materialColorBindType")?;
        Ok(MaterialColorBind {
            extensions,
            extras,
            material,
            target_value,
            material_color_bind_type,
        })
    }

    fn encode(&self) -> (j: Json) {
        let mut m: Vec<(String, Json)> = Vec::new();
        put_opt(&mut m, "extensions", &self.extensions);
        assert(entries_view(m@) =~= opt_entry::<Extensions>("extensions"@, self.extensions));
        put_extras(&mut m, "extras", &self.extras);
        put_req(&mut m, "material", &self.material);
        put_req(&mut m, "targetValue", &self.target_value);
        put_req(&mut m, "materialColorBindType", &self.material_color_bind_type);
        Json::Object(m)
    }
}

/// A morph target that the expression animates.
#[derive(Clone, Debug)]
pub struct MorphTargetBind {
    pub extensions: Option<Extensions>,
    pub extras: Json,
    /// The index of the morph target in the mesh.
    pub index: usize,
    /// The index of the node that holds the mesh.
    pub node: usize,
    /// The weight of the morph target.
    pub weight: Number,
}

impl MorphTargetBind {
    /// Decoding a JSON value as this entity succeeds.
    #[verifier::opaque]
    pub open spec fn spec_accepts(j: JsonView) -> bool {
        &&& j is Object
        &&& opt_ok::<Extensions>(get(j, "extensions"@))
        &&& req_ok::<usize>(get(j, "index"@))
        &&& req_ok::<usize>(get(j, "node"@))
        &&& req_ok::<Number>(get(j, "weight"@))
    }

    /// `x` is the entity that the JSON value `j` decodes to.
    #[verifier::opaque]
    pub open spec fn spec_denotes(j: JsonView, x: MorphTargetBind) -> bool {
        &&& opt_is::<Extensions>(get(j, "extensions"@), x.extensions)
        &&& extras_is(get(j, "extras"@), x.extras)
        &&& req_is::<usize>(get(j, "index"@), x.index)
        &&& req_is::<usize>(get(j, "node"@), x.node)
        &&& req_is::<Number>(get(j, "weight"@), x.weight)
    }

    /// Every map of the entity has unique keys, and so on down.
    #[verifier::opaque]
    pub open spec fn spec_wf(x: MorphTargetBind) -> bool {
        &&& opt_wf::<Extensions>(x.extensions)
        &&& <usize as Codec>::wf(x.index)
        &&& <usize as Codec>::wf(x.node)
        &&& <Number as Codec>::wf(x.weight)
    }
}

impl Codec for MorphTargetBind {
    open spec fn accepts(j: JsonView) -> bool {
        MorphTargetBind::spec_accepts(j)
    }

    open spec fn denotes(j: JsonView, x: MorphTargetBind) -> bool {
        MorphTargetBind::spec_denotes(j, x)
    }

    open spec fn wf(x: MorphTargetBind) -> bool {
        MorphTargetBind::spec_wf(x)
    }

    open spec fn encoding(x: MorphTargetBind) -> JsonView {
        JsonView::Object(
            opt_entry::<Extensions>("extensions"@, x.extensions)
            + extras_entry("extras"@, x.extras)
            + req_entry::<usize>("index"@, x.index)
            + req_entry::<usize>("node"@, x.node)
            + req_entry::<Number>("weight"@, x.weight)
        )
    }

    proof fn lemma_round_trip(x: MorphTargetBind) {
        broadcast use group_lookup;

        reveal(MorphTargetBind::spec_accepts);
        reveal(MorphTargetBind::spec_denotes);
        reveal(MorphTargetBind::spec_wf);
        reveal_strlit("extensions");
        reveal_strlit("extras");
        reveal_strlit("index");
        reveal_strlit("node");
        reveal_strlit("weight");
        assert("extensions"@.len() == 10);
        assert("extras"@.len() == 6);
        assert("index"@.len() == 5);
        assert("node"@.len() == 4);
        assert("weight"@.len() == 6);
        assert("extras"@[0] != "weight"@[0]);
        let e = MorphTargetBind::encoding(x);
        assert(get(e, "extensions"@) == opt_encoding(x.extensions));
        assert(get(e, "extras"@) == if x.extras@ != JsonView::Null { Some(x.extras@) } else { None });
        assert(get(e, "index"@) == Some(<usize as Codec>::encoding(x.index)));
        assert(get(e, "node"@) == Some(<usize as Codec>::encoding(x.node)));
        assert(get(e, "weight"@) == Some(<Number as Codec>::encoding(x.weight)));
        lemma_opt_field::<Extensions>(x.extensions);
        lemma_req_field::<usize>(x.index);
        lemma_req_field::<usize>(x.node);
        lemma_req_field::<Number>(x.weight);
    }

    fn decode(j: &Json) -> (r: Result<MorphTargetBind, DecodeError>) {
        proof {
            reveal(MorphTargetBind::spec_accepts);
            reveal(MorphTargetBind::spec_denotes);
            reveal(MorphTargetBind::spec_wf);
        }
        if !j.is_object() {
            return Err(DecodeError);
        }
        let extensions = opt_field::<Extensions>(j, "extensions")?;
        let extras = extras_field(j, "extras");
        let index = req_field::<usize>(j, "index")?;
        let node = req_field::<usize>(j, "node")?;
        let weight = req_field::<Number>(j, "weight")?;
        Ok(MorphTargetBind {
            extensions,
            extras,
            index,
            node,
            weight,
        })
    }

    fn encode(&self) -> (j: Json) {
        let mut m: Vec<(String, Json)> = Vec::new();
        put_opt(&mut m, "extensions", &self.extensions);
        assert(entries_view(m@) =~= opt_entry::<Extensions>("extensions"@, self.extensions));
        put_extras(&mut m, "extras", &self.extras);
        put_req(&mut m, "index", &self.index);
        put_req(&mut m, "node", &self.node);
        put_req(&mut m, "weight", &self.weight);
        Json::Object(m)
    }
}

/// A texture transform that the expression animates.
#[derive(Clone, Debug)]
pub struct TextureTransformBind {
    pub extensions: Option<Extensions>,
    pub extras: Json,
    /// The index of the material.
    pub material: usize,
    /// The texture offset.
    pub offset: Option<Vec<Number>>,
    /// The texture scale.
    pub scale: Option<Vec<Number>>,
}

impl TextureTransformBind {
    /// Decoding a JSON value as this entity succeeds.
    #[verifier::opaque]
    pub open spec fn spec_accepts(j: JsonView) -> bool {
        &&& j is Object
        &&& opt_ok::<Extensions>(get(j, "extensions"@))
        &&& req_ok::<usize>(get(j, "material"@))
        &&& opt_ok::<Vec<Number>>(get(j, "offset"@))
        &&& opt_ok::<Vec<Number>>(get(j, "scale"@))
    }

    /// `x` is the entity that the JSON value `j` decodes to.
    #[verifier::opaque]
    pub open spec fn spec_denotes(j: JsonView, x: TextureTransformBind) -> bool {
        &&& opt_is::<Extensions>(get(j, "extensions"@), x.extensions)
        &&& extras_is(get(j, "extras"@), x.extras)
        &&& req_is::<usize>(get(j, "material"@), x.material)
        &&& opt_is::<Vec<Number>>(get(j, "offset"@), x.offset)
        &&& opt_is::<Vec<Number>>(get(j, "scale"@), x.scale)
    }

    /// Every map of the entity has unique keys, and so on down.
    #[verifier::opaque]
    pub open spec fn spec_wf(x: TextureTransformBind) -> bool {
        &&& opt_wf::<Extensions>(x.extensions)
        &&& <usize as Codec>::wf(x.material)
        &&& opt_wf::<Vec<Number>>(x.offset)
        &&& opt_wf::<Vec<Number>>(x.scale)
    }
}

impl Codec for TextureTransformBind {
    open spec fn accepts(j: JsonView) -> bool {
        TextureTransformBind::spec_accepts(j)
    }

    open spec fn denotes(j: JsonView, x: TextureTransformBind) -> bool {
        TextureTransformBind::spec_denotes(j, x)
    }

    open spec fn wf(x: TextureTransformBind) -> bool {
        TextureTransformBind::spec_wf(x)
    }

    open spec fn encoding(x: TextureTransformBind) -> JsonView {
        JsonView::Object(
            opt_entry::<Extensions>("extensions"@, x.extensions)
            + extras_entry("extras"@, x.extras)
            + req_entry::<usize>("material"@, x.material)
            + opt_entry::<Vec<Number>>("offset"@, x.offset)
            + opt_entry::<Vec<Number>>("scale"@, x.scale)
        )
    }

    proof fn lemma_round_trip(x: TextureTransformBind) {
        broadcast use group_lookup;

        reveal(TextureTransformBind::spec_accepts);
        reveal(TextureTransformBind::spec_denotes);
        reveal(TextureTransformBind::spec_wf);
        reveal_strlit("extensions");
        reveal_strlit("extras");
        reveal_strlit("material");
        reveal_strlit("offset");
        reveal_strlit("scale");
        assert("extensions"@.len() == 10);
        assert("extras"@.len() == 6);
        assert("material"@.len() == 8);
        assert("offset"@.len() == 6);
        assert("scale"@.len() == 5);
        assert("extras"@[0] != "offset"@[0]);
        let e = TextureTransformBind::encoding(x);
        assert(get(e, "extensions"@) == opt_encoding(x.extensions));
        assert(get(e, "extras"@) == if x.extras@ != JsonView::Null { Some(x.extras@) } else { None });
        assert(get(e, "material"@) == Some(<usize as Codec>::encoding(x.material)));
        assert(get(e, "offset"@) == opt_encoding(x.offset));
        assert(get(e, "scale"@) == opt_encoding(x.scale));
        lemma_opt_field::<Extensions>(x.extensions);
        lemma_req_field::<usize>(x.material);
        lemma_opt_field::<Vec<Number>>(x.offset);
        lemma_opt_field::<Vec<Number>>(x.scale);
    }

    fn decode(j: &Json) -> (r: Result<TextureTransformBind, DecodeError>) {
        proof {
            reveal(TextureTransformBind::spec_accepts);
            reveal(TextureTransformBind::spec_denotes);
            reveal(TextureTransformBind::spec_wf);
        }
        if !j.is_object() {
            return Err(DecodeError);
        }
        let extensions = opt_field::<Extensions>(j, "extensions")?;
        let extras = extras_field(j, "extras");
        let material = req_field::<usize>(j, "material")?;
        let offset = opt_field::<Vec<Number>>(j, "offset")?;
        let scale = opt_field::<Vec<Number>>(j, "scale")?;
        Ok(TextureTransformBind {
            extensions,
            extras,
            material,
            offset,
            scale,
        })
    }

    fn encode(&self) -> (j: Json) {
        let mut m: Vec<(String, Json)> = Vec::new();
        put_opt(&mut m, "extensions", &self.extensions);
        assert(entries_view(m@) =~= opt_entry::<Extensions>("extensions"@, self.extensions));
        put_extras(&mut m, "extras", &self.extras);
        put_req(&mut m, "material", &self.material);
        put_opt(&mut m, "offset", &self.offset);
        put_opt(&mut m, "scale", &self.scale);
        Json::Object(m)
    }
}

/// First-person settings.
#[derive(Clone, Debug)]
pub struct FirstPerson {
    pub extensions: Option<Extensions>,
    pub extras: Json,
    pub mesh_annotations: Option<Vec<MeshAnnotation>>,
}

impl FirstPerson {
    /// Decoding a JSON value as this entity succeeds.
    #[verifier::opaque]
    pub open spec fn spec_accepts(j: JsonView) -> bool {
        &&& j is Object
        &&& opt_ok::<Extensions>(get(j, "extensions"@))
        &&& opt_ok::<Vec<MeshAnnotation>>(get(j, "meshAnnotations"@))
    }

    /// `x` is the entity that the JSON value `j` decodes to.
    #[verifier::opaque]
    pub open spec fn spec_denotes(j: JsonView, x: FirstPerson) -> bool {
        &&& opt_is::<Extensions>(get(j, "extensions"@), x.extensions)
        &&& extras_is(get(j, "extras"@), x.extras)
        &&& opt_is::<Vec<MeshAnnotation>>(get(j, "meshAnnotations"@), x.mesh_annotations)
    }

    /// Every map of the entity has unique keys, and so on down.
    #[verifier::opaque]
    pub open spec fn spec_wf(x: FirstPerson) -> bool {
        &&& opt_wf::<Extensions>(x.extensions)
        &&& opt_wf::<Vec<MeshAnnotation>>(x.mesh_annotations)
    }
}

impl Codec for FirstPerson {
    open spec fn accepts(j: JsonView) -> bool {
        FirstPerson::spec_accepts(j)
    }

    open spec fn denotes(j: JsonView, x: FirstPerson) -> bool {
        FirstPerson::spec_denotes(j, x)
    }

    open spec fn wf(x: FirstPerson) -> bool {
        FirstPerson::spec_wf(x)
    }

    open spec fn encoding(x: FirstPerson) -> JsonView {
        JsonView::Object(
            opt_entry::<Extensions>("extensions"@, x.extensions)
            + extras_entry("extras"@, x.extras)
            + opt_entry::<Vec<MeshAnnotation>>("meshAnnotations"@, x.mesh_annotations)
        )
    }

    proof fn lemma_round_trip(x: FirstPerson) {
        broadcast use group_lookup;

        reveal(FirstPerson::spec_accepts);
        reveal(FirstPerson::spec_denotes);
        reveal(FirstPerson::spec_wf);
        reveal_strlit("extensions");
        reveal_strlit("extras");
        reveal_strlit("meshAnnotations");
        assert("extensions"@.len() == 10);
        assert("extras"@.len() == 6);
        assert("meshAnnotations"@.len() == 15);
        let e = FirstPerson::encoding(x);
        assert(get(e, "extensions"@) == opt_encoding(x.extensions));
        assert(get(e, "extras"@) == if x.extras@ != JsonView::Null { Some(x.extras@) } else { None });
        assert(get(e, "meshAnnotations"@) == opt_encoding(x.mesh_annotations));
        lemma_opt_field::<Extensions>(x.extensions);
        lemma_opt_field::<Vec<MeshAnnotation>>(x.mesh_annotations);
    }

    fn decode(j: &Json) -> (r: Result<FirstPerson, DecodeError>) {
        proof {
            reveal(FirstPerson::spec_accepts);
            reveal(FirstPerson::spec_denotes);
            reveal(FirstPerson::spec_wf);
        }
        if !j.is_object() {
            return Err(DecodeError);
        }
        let extensions = opt_field::<Extensions>(j, "extensions")?;
        let extras = extras_field(j, "extras");
        let mesh_annotations = opt_field::<Vec<MeshAnnotation>>(j, "meshAnnotations")?;
        Ok(FirstPerson {
            extensions,
            extras,
            mesh_annotations,
        })
    }

    fn encode(&self) -> (j: Json) {
        let mut m: Vec<(String, Json)> = Vec::new();
        put_opt(&mut m, "extensions", &self.extensions);
        assert(entries_view(m@) =~= opt_entry::<Extensions>("extensions"@, self.extensions));
        put_extras(&mut m, "extras", &self.extras);
        put_opt(&mut m, "meshAnnotations", &self.mesh_annotations);
        Json::Object(m)
    }
}

/// How a mesh is seen from the first-person camera.
#[derive(Clone, Debug)]
pub struct MeshAnnotation {
    pub extensions: Option<Extensions>,
    pub extras: Json,
    /// The index of the node.
    pub node: Option<usize>,
    /// How the camera interprets the mesh.
    pub mesh_annotation_type: FirstPersonType,
}

impl MeshAnnotation {
    /// Decoding a JSON value as this entity succeeds.
    #[verifier::opaque]
    pub open spec fn spec_accepts(j: JsonView) -> bool {
        &&& j is Object
        &&& opt_ok::<Extensions>(get(j, "extensions"@))
        &&& opt_ok::<usize>(get(j, "node"@))
        &&& req_ok::<FirstPersonType>(get(j, "type"@))
    }

    /// `x` is the entity that the JSON value `j` decodes to.
    #[verifier::opaque]
    pub open spec fn spec_denotes(j: JsonView, x: MeshAnnotation) -> bool {
        &&& opt_is::<Extensions>(get(j, "extensions"@), x.extensions)
        &&& extras_is(get(j, "extras"@), x.extras)
        &&& opt_is::<usize>(get(j, "node"@), x.node)
        &&& req_is::<FirstPersonType>(get(j, "type"@), x.mesh_annotation_type)
    }

    /// Every map of the entity has unique keys, and so on down.
    #[verifier::opaque]
    pub open spec fn spec_wf(x: MeshAnnotation) -> bool {
        &&& opt_wf::<Extensions>(x.extensions)
        &&& opt_wf::<usize>(x.node)
        &&& <FirstPersonType as Codec>::wf(x.mesh_annotation_type)
    }
}

impl Codec for MeshAnnotation {
    open spec fn accepts(j: JsonView) -> bool {
        MeshAnnotation::spec_accepts(j)
    }

    open spec fn denotes(j: JsonView, x: MeshAnnotation) -> bool {
        MeshAnnotation::spec_denotes(j, x)
    }

    open spec fn wf(x: MeshAnnotation) -> bool {
        MeshAnnotation::spec_wf(x)
    }

    open spec fn encoding(x: MeshAnnotation) -> JsonView {
        JsonView::Object(
            opt_entry::<Extensions>("extensions"@, x.extensions)
            + extras_entry("extras"@, x.extras)
            + opt_entry::<usize>("node"@, x.node)
            + req_entry::<FirstPersonType>("type"@, x.mesh_annotation_type)
        )
    }

    proof fn lemma_round_trip(x: MeshAnnotation) {
        broadcast use group_lookup;

        reveal(MeshAnnotation::spec_accepts);
        reveal(MeshAnnotation::spec_denotes);
        reveal(MeshAnnotation::spec_wf);
        reveal_strlit("extensions");
        reveal_strlit("extras");
        reveal_strlit("node");
        reveal_strlit("type");
        assert("extensions"@.len() == 10);
        assert("extras"@.len() == 6);
        assert("node"@.len() == 4);
        assert("type"@.len() == 4);
        assert("node"@[0] != "type"@[0]);
        let e = MeshAnnotation::encoding(x);
        assert(get(e, "extensions"@) == opt_encoding(x.extensions));
        assert(get(e, "extras"@) == if x.extras@ != JsonView::Null { Some(x.extras@) } else { None });
        assert(get(e, "node"@) == opt_encoding(x.node));
        assert(get(e, "type"@) == Some(<FirstPersonType as Codec>::encoding(x.mesh_annotation_type)));
        lemma_opt_field::<Extensions>(x.extensions);
        lemma_opt_field::<usize>(x.node);
        lemma_req_field::<FirstPersonType>(x.mesh_annotation_type);
    }

    fn decode(j: &Json) -> (r: Result<MeshAnnotation, DecodeError>) {
        proof {
            reveal(MeshAnnotation::spec_accepts);
            reveal(MeshAnnotation::spec_denotes);
            reveal(MeshAnnotation::spec_wf);
        }
        if !j.is_object() {
            return Err(DecodeError);
        }
        let extensions = opt_field::<Extensions>(j, "extensions")?;
        let extras = extras_field(j, "extras");
        let node = opt_field::<usize>(j, "node")?;
        let mesh_annotation_type = req_field::<FirstPersonType>(j, "type")?;
        Ok(MeshAnnotation {
            extensions,
            extras,
            node,
            mesh_annotation_type,
        })
    }

    fn encode(&self) -> (j: Json) {
        let mut m: Vec<(String, Json)> = Vec::new();
        put_opt(&mut m, "extensions", &self.extensions);
        assert(entries_view(m@) =~= opt_entry::<Extensions>("extensions"@, self.extensions));
        put_extras(&mut m, "extras", &self.extras);
        put_opt(&mut m, "node", &self.node);
        put_req(&mut m, "type", &self.mesh_annotation_type);
        Json::Object(m)
    }
}

/// The humanoid skeleton.
#[derive(Clone, Debug)]
pub struct Humanoid {
    pub extensions: Option<Extensions>,
    pub extras: Json,
    pub human_bones: HumanBones,
}

impl Humanoid {
    /// Decoding a JSON value as this entity succeeds.
    #[verifier::opaque]
    pub open spec fn spec_accepts(j: JsonView) -> bool {
        &&& j is Object
        &&& opt_ok::<Extensions>(get(j, "extensions"@))
        &&& req_ok::<HumanBones>(get(j, "humanBones"@))
    }

    /// `x` is the entity that the JSON value `j` decodes to.
    #[verifier::opaque]
    pub open spec fn spec_denotes(j: JsonView, x: Humanoid) -> bool {
        &&& opt_is::<Extensions>(get(j, "extensions"@), x.extensions)
        &&& extras_is(get(j, "extras"@), x.extras)
        &&& req_is::<HumanBones>(get(j, "humanBones"@), x.human_bones)
    }

    /// Every map of the entity has unique keys, and so on down.
    #[verifier::opaque]
    pub open spec fn spec_wf(x: Humanoid) -> bool {
        &&& opt_wf::<Extensions>(x.extensions)
        &&& <HumanBones as Codec>::wf(x.human_bones)
    }
}

impl Codec for Humanoid {
    open spec fn accepts(j: JsonView) -> bool {
        Humanoid::spec_accepts(j)
    }

    open spec fn denotes(j: JsonView, x: Humanoid) -> bool {
        Humanoid::spec_denotes(j, x)
    }

    open spec fn wf(x: Humanoid) -> bool {
        Humanoid::spec_wf(x)
    }

    open spec fn encoding(x: Humanoid) -> JsonView {
        JsonView::Object(
            opt_entry::<Extensions>("extensions"@, x.extensions)
            + extras_entry("extras"@, x.extras)
            + req_entry::<HumanBones>("humanBones"@, x.human_bones)
        )
    }

    proof fn lemma_round_trip(x: Humanoid) {
        broadcast use group_lookup;

        reveal(Humanoid::spec_accepts);
        reveal(Humanoid::spec_denotes);
        reveal(Humanoid::spec_wf);
        reveal_strlit("extensions");
        reveal_strlit("extras");
        reveal_strlit("humanBones");
        assert("extensions"@.len() == 10);
        assert("extras"@.len() == 6);
        assert("humanBones"@.len() == 10);
        assert("extensions"@[0] != "humanBones"@[0]);
        let e = Humanoid::encoding(x);
        assert(get(e, "extensions"@) == opt_encoding(x.extensions));
        assert(get(e, "extras"@) == if x.extras@ != JsonView::Null { Some(x.extras@) } else { None });
        assert(get(e, "humanBones"@) == Some(<HumanBones as Codec>::encoding(x.human_bones)));
        lemma_opt_field::<Extensions>(x.extensions);
        lemma_req_field::<HumanBones>(x.human_bones);
    }

    fn decode(j: &Json) -> (r: Result<Humanoid, DecodeError>) {
        proof {
            reveal(Humanoid::spec_accepts);
            reveal(Humanoid::spec_denotes);
            reveal(Humanoid::spec_wf);
        }
        if !j.is_object() {
            return Err(DecodeError);
        }
        let extensions = opt_field::<Extensions>(j, "extensions")?;
        let extras = extras_field(j, "extras");
        let human_bones = req_field::<HumanBones>(j, "humanBones")?;
        Ok(Humanoid {
            extensions,
            extras,
            human_bones,
        })
    }

    fn encode(&self) -> (j: Json) {
        let mut m: Vec<(String, Json)> = Vec::new();
        put_opt(&mut m, "extensions", &self.extensions);
        assert(entries_view(m@) =~= opt_entry::<Extensions>("extensions"@, self.extensions));
        put_extras(&mut m, "extras", &self.extras);
        put_req(&mut m, "humanBones", &self.human_bones);
        Json::Object(m)
    }
}

/// A bone of the humanoid.
#[derive(Clone, Debug)]
pub struct HumanBone {
    pub extensions: Option<Extensions>,
    pub extras: Json,
    /// The index of the node.
    pub node: Option<usize>,
}

impl HumanBone {
    /// Decoding a JSON value as this entity succeeds.
    #[verifier::opaque]
    pub open spec fn spec_accepts(j: JsonView) -> bool {
        &&& j is Object
        &&& opt_ok::<Extensions>(get(j, "extensions"@))
        &&& opt_ok::<usize>(get(j, "node"@))
    }

    /// `x` is the entity that the JSON value `j` decodes to.
    #[verifier::opaque]
    pub open spec fn spec_denotes(j: JsonView, x: HumanBone) -> bool {
        &&& opt_is::<Extensions>(get(j, "extensions"@), x.extensions)
        &&& extras_is(get(j, "extras"@), x.extras)
        &&& opt_is::<usize>(get(j, "node"@), x.node)
    }

    /// Every map of the entity has unique keys, and so on down.
    #[verifier::opaque]
    pub open spec fn spec_wf(x: HumanBone) -> bool {
        &&& opt_wf::<Extensions>(x.extensions)
        &&& opt_wf::<usize>(x.node)
    }
}

impl Codec for HumanBone {
    open spec fn accepts(j: JsonView) -> bool {
        HumanBone::spec_accepts(j)
    }

    open spec fn denotes(j: JsonView, x: HumanBone) -> bool {
        HumanBone::spec_denotes(j, x)
    }

    open spec fn wf(x: HumanBone) -> bool {
        HumanBone::spec_wf(x)
    }

    open spec fn encoding(x: HumanBone) -> JsonView {
        JsonView::Object(
            opt_entry::<Extensions>("extensions"@, x.extensions)
            + extras_entry("extras"@, x.extras)
            + opt_entry::<usize>("node"@, x.node)
        )
    }

    proof fn lemma_round_trip(x: HumanBone) {
        broadcast use group_lookup;

        reveal(HumanBone::spec_accepts);
        reveal(HumanBone::spec_denotes);
        reveal(HumanBone::spec_wf);
        reveal_strlit("extensions");
        reveal_strlit("extras");
        reveal_strlit("node");
        assert("extensions"@.len() == 10);
        assert("extras"@.len() == 6);
        assert("node"@.len() == 4);
        let e = HumanBone::encoding(x);
        assert(get(e, "extensions"@) == opt_encoding(x.extensions));
        assert(get(e, "extras"@) == if x.extras@ != JsonView::Null { Some(x.extras@) } else { None });
        assert(get(e, "node"@) == opt_encoding(x.node));
        lemma_opt_field::<Extensions>(x.extensions);
        lemma_opt_field::<usize>(x.node);
    }

    fn decode(j: &Json) -> (r: Result<HumanBone, DecodeError>) {
        proof {
            reveal(HumanBone::spec_accepts);
            reveal(HumanBone::spec_denotes);
            reveal(HumanBone::spec_wf);
        }
        if !j.is_object() {
            return Err(DecodeError);
        }
        let extensions = opt_field::<Extensions>(j, "extensions")?;
        let extras = extras_field(j, "extras");
        let node = opt_field::<usize>(j, "node")?;
        Ok(HumanBone {
            extensions,
            extras,
            node,
        })
    }

    fn encode(&self) -> (j: Json) {
        let mut m: Vec<(String, Json)> = Vec::new();
        put_opt(&mut m, "extensions", &self.extensions);
        assert(entries_view(m@) =~= opt_entry::<Extensions>("extensions"@, self.extensions));
        put_extras(&mut m, "extras", &self.extras);
        put_opt(&mut m, "node", &self.node);
        Json::Object(m)
    }
}

/// A bone of the humanoid as the bone map holds it: `null` is no bone.
impl Codec for Option<HumanBone> {
    open spec fn accepts(j: JsonView) -> bool {
        j is Null || HumanBone::accepts(j)
    }

    open spec fn denotes(j: JsonView, x: Option<HumanBone>) -> bool {
        if j is Null {
            x is None
        } else {
            x matches Some(b) && HumanBone::denotes(j, b)
        }
    }

    open spec fn encoding(x: Option<HumanBone>) -> JsonView {
        match x {
            Some(b) => HumanBone::encoding(b),
            None => JsonView::Null,
        }
    }

    open spec fn wf(x: Option<HumanBone>) -> bool {
        match x {
            Some(b) => HumanBone::wf(b),
            None => true,
        }
    }

    proof fn lemma_round_trip(x: Option<HumanBone>) {
        if let Some(b) = x {
            HumanBone::lemma_round_trip(b);
        }
    }

    fn decode(j: &Json) -> (r: Result<Option<HumanBone>, DecodeError>) {
        match j {
            Json::Null => Ok(None),
            _ => match HumanBone::decode(j) {
                Ok(b) => Ok(Some(b)),
                Err(e) => Err(e),
            },
        }
    }

    fn encode(&self) -> (j: Json) {
        match self {
            Some(b) => b.encode(),
            None => Json::Null,
        }
    }
}

/// Look-at settings.
#[derive(Clone, Debug)]
pub struct LookAt {
    pub extensions: Option<Extensions>,
    pub extras: Json,
    /// The position of the eyes, from the head bone.
    pub offset_from_head_bone: Option<Vec<Number>>,
    pub range_map_horizontal_inner: Option<LookAtRangeMap>,
    pub range_map_horizontal_outer: Option<LookAtRangeMap>,
    pub range_map_vertical_down: Option<LookAtRangeMap>,
    pub range_map_vertical_up: Option<LookAtRangeMap>,
    pub look_at_type: Option<LookAtType>,
}

impl LookAt {
    /// Decoding a JSON value as this entity succeeds.
    #[verifier::opaque]
    pub open spec fn spec_accepts(j: JsonView) -> bool {
        &&& j is Object
        &&& opt_ok::<Extensions>(get(j, "extensions"@))
        &&& opt_ok::<Vec<Number>>(get(j, "offsetFromHeadBone"@))
        &&& opt_ok::<LookAtRangeMap>(get(j, "rangeMapHorizontalInner"@))
        &&& opt_ok::<LookAtRangeMap>(get(j, "rangeMapHorizontalOuter"@))
        &&& opt_ok::<LookAtRangeMap>(get(j, "rangeMapVerticalDown"@))
        &&& opt_ok::<LookAtRangeMap>(get(j, "rangeMapVerticalUp"@))
        &&& opt_ok::<LookAtType>(get(j, "type"@))
    }

    /// `x` is the entity that the JSON value `j` decodes to.
    #[verifier::opaque]
    pub open spec fn spec_denotes(j: JsonView, x: LookAt) -> bool {
        &&& opt_is::<Extensions>(get(j, "extensions"@), x.extensions)
        &&& extras_is(get(j, "extras"@), x.extras)
        &&& opt_is::<Vec<Number>>(get(j, "offsetFromHeadBone"@), x.offset_from_head_bone)
        &&& opt_is::<LookAtRangeMap>(get(j, "rangeMapHorizontalInner"@), x.range_map_horizontal_inner)
        &&& opt_is::<LookAtRangeMap>(get(j, "rangeMapHorizontalOuter"@), x.range_map_horizontal_outer)
        &&& opt_is::<LookAtRangeMap>(get(j, "rangeMapVerticalDown"@), x.range_map_vertical_down)
        &&& opt_is::<LookAtRangeMap>(get(j, "rangeMapVerticalUp"@), x.range_map_vertical_up)
        &&& opt_is::<LookAtType>(get(j, "type"@), x.look_at_type)
    }

    /// Every map of the entity has unique keys, and so on down.
    #[verifier::opaque]
    pub open spec fn spec_wf(x: LookAt) -> bool {
        &&& opt_wf::<Extensions>(x.extensions)
        &&& opt_wf::<Vec<Number>>(x.offset_from_head_bone)
        &&& opt_wf::<LookAtRangeMap>(x.range_map_horizontal_inner)
        &&& opt_wf::<LookAtRangeMap>(x.range_map_horizontal_outer)
        &&& opt_wf::<LookAtRangeMap>(x.range_map_vertical_down)
        &&& opt_wf::<LookAtRangeMap>(x.range_map_vertical_up)
        &&& opt_wf::<LookAtType>(x.look_at_type)
    }
}

impl Codec for LookAt {
    open spec fn accepts(j: JsonView) -> bool {
        LookAt::spec_accepts(j)
    }

    open spec fn denotes(j: JsonView, x: LookAt) -> bool {
        LookAt::spec_denotes(j, x)
    }

    open spec fn wf(x: LookAt) -> bool {
        LookAt::spec_wf(x)
    }

    open spec fn encoding(x: LookAt) -> JsonView {
        JsonView::Object(
            opt_entry::<Extensions>("extensions"@, x.extensions)
            + extras_entry("extras"@, x.extras)
            + opt_entry::<Vec<Number>>("offsetFromHeadBone"@, x.offset_from_head_bone)
            + opt_entry::<LookAtRangeMap>("rangeMapHorizontalInner"@, x.range_map_horizontal_inner)
            + opt_entry::<LookAtRangeMap>("rangeMapHorizontalOuter"@, x.range_map_horizontal_outer)
            + opt_entry::<LookAtRangeMap>("rangeMapVerticalDown"@, x.range_map_vertical_down)
            + opt_entry::<LookAtRangeMap>("rangeMapVerticalUp"@, x.range_map_vertical_up)
            + opt_entry::<LookAtType>("type"@, x.look_at_type)
        )
    }

    proof fn lemma_round_trip(x: LookAt) {
        broadcast use group_lookup;

        reveal(LookAt::spec_accepts);
        reveal(LookAt::spec_denotes);
        reveal(LookAt::spec_wf);
        reveal_strlit("extensions");
        reveal_strlit("extras");
        reveal_strlit("offsetFromHeadBone");
        reveal_strlit("rangeMapHorizontalInner");
        reveal_strlit("rangeMapHorizontalOuter");
        reveal_strlit("rangeMapVerticalDown");
        reveal_strlit("rangeMapVerticalUp");
        reveal_strlit("type");
        assert("extensions"@.len() == 10);
        assert("extras"@.len() == 6);
        assert("offsetFromHeadBone"@.len() == 18);
        assert("rangeMapHorizontalInner"@.len() == 23);
        assert("rangeMapHorizontalOuter"@.len() == 23);
        assert("rangeMapVerticalDown"@.len() == 20);
        assert("rangeMapVerticalUp"@.len() == 18);
        assert("type"@.len() == 4);
        assert("offsetFromHeadBone"@[0] != "rangeMapVerticalUp"@[0]);
        assert("rangeMapHorizontalInner"@[18] != "rangeMapHorizontalOuter"@[18]);
        let e = LookAt::encoding(x);
        assert(get(e, "extensions"@) == opt_encoding(x.extensions));
        assert(get(e, "extras"@) == if x.extras@ != JsonView::Null { Some(x.extras@) } else { None });
        assert(get(e, "offsetFromHeadBone"@) == opt_encoding(x.offset_from_head_bone));
        assert(get(e, "rangeMapHorizontalInner"@) == opt_encoding(x.range_map_horizontal_inner));
        assert(get(e, "rangeMapHorizontalOuter"@) == opt_encoding(x.range_map_horizontal_outer));
        assert(get(e, "rangeMapVerticalDown"@) == opt_encoding(x.range_map_vertical_down));
        assert(get(e, "rangeMapVerticalUp"@) == opt_encoding(x.range_map_vertical_up));
        assert(get(e, "type"@) == opt_encoding(x.look_at_type));
        lemma_opt_field::<Extensions>(x.extensions);
        lemma_opt_field::<Vec<Number>>(x.offset_from_head_bone);
        lemma_opt_field::<LookAtRangeMap>(x.range_map_horizontal_inner);
        lemma_opt_field::<LookAtRangeMap>(x.range_map_horizontal_outer);
        lemma_opt_field::<LookAtRangeMap>(x.range_map_vertical_down);
        lemma_opt_field::<LookAtRangeMap>(x.range_map_vertical_up);
        lemma_opt_field::<LookAtType>(x.look_at_type);
    }

    fn decode(j: &Json) -> (r: Result<LookAt, DecodeError>) {
        proof {
            reveal(LookAt::spec_accepts);
            reveal(LookAt::spec_denotes);
            reveal(LookAt::spec_wf);
        }
        if !j.is_object() {
            return Err(DecodeError);
        }
        let extensions = opt_field::<Extensions>(j, "extensions")?;
        let extras = extras_field(j, "extras");
        let offset_from_head_bone = opt_field::<Vec<Number>>(j, "offsetFromHeadBone")?;
        let range_map_horizontal_inner = opt_field::<LookAtRangeMap>(j, "rangeMapHorizontalInner")?;
        let range_map_horizontal_outer = opt_field::<LookAtRangeMap>(j, "rangeMapHorizontalOuter")?;
        let range_map_vertical_down = opt_field::<LookAtRangeMap>(j, "rangeMapVerticalDown")?;
        let range_map_vertical_up = opt_field::<LookAtRangeMap>(j, "rangeMapVerticalUp")?;
        let look_at_type = opt_field::<LookAtType>(j, "type")?;
        Ok(LookAt {
            extensions,
            extras,
            offset_from_head_bone,
            range_map_horizontal_inner,
            range_map_horizontal_outer,
            range_map_vertical_down,
            range_map_vertical_up,
            look_at_type,
        })
    }

    fn encode(&self) -> (j: Json) {
        let mut m: Vec<(String, Json)> = Vec::new();
        put_opt(&mut m, "extensions", &self.extensions);
        assert(entries_view(m@) =~= opt_entry::<Extensions>("extensions"@, self.extensions));
        put_extras(&mut m, "extras", &self.extras);
        put_opt(&mut m, "offsetFromHeadBone", &self.offset_from_head_bone);
        put_opt(&mut m, "rangeMapHorizontalInner", &self.range_map_horizontal_inner);
        put_opt(&mut m, "rangeMapHorizontalOuter", &self.range_map_horizontal_outer);
        put_opt(&mut m, "rangeMapVerticalDown", &self.range_map_vertical_down);
        put_opt(&mut m, "rangeMapVerticalUp", &self.range_map_vertical_up);
        put_opt(&mut m, "type", &self.look_at_type);
        Json::Object(m)
    }
}

/// A nonlinear map from look-at angle to output.
#[derive(Clone, Debug)]
pub struct LookAtRangeMap {
    pub extensions: Option<Extensions>,
    pub extras: Json,
    pub input_max_value: Option<Number>,
    pub output_scale: Option<Number>,
}

impl LookAtRangeMap {
    /// Decoding a JSON value as this entity succeeds.
    #[verifier::opaque]
    pub open spec fn spec_accepts(j: JsonView) -> bool {
        &&& j is Object
        &&& opt_ok::<Extensions>(get(j, "extensions"@))
        &&& opt_ok::<Number>(get(j, "inputMaxValue"@))
        &&& opt_ok::<Number>(get(j, "outputScale"@))
    }

    /// `x` is the entity that the JSON value `j` decodes to.
    #[verifier::opaque]
    pub open spec fn spec_denotes(j: JsonView, x: LookAtRangeMap) -> bool {
        &&& opt_is::<Extensions>(get(j, "extensions"@), x.extensions)
        &&& extras_is(get(j, "extras"@), x.extras)
        &&& opt_is::<Number>(get(j, "inputMaxValue"@), x.input_max_value)
        &&& opt_is::<Number>(get(j, "outputScale"@), x.output_scale)
    }

    /// Every map of the entity has unique keys, and so on down.
    #[verifier::opaque]
    pub open spec fn spec_wf(x: LookAtRangeMap) -> bool {
        &&& opt_wf::<Extensions>(x.extensions)
        &&& opt_wf::<Number>(x.input_max_value)
        &&& opt_wf::<Number>(x.output_scale)
    }
}

impl Codec for LookAtRangeMap {
    open spec fn accepts(j: JsonView) -> bool {
        LookAtRangeMap::spec_accepts(j)
    }

    open spec fn denotes(j: JsonView, x: LookAtRangeMap) -> bool {
        LookAtRangeMap::spec_denotes(j, x)
    }

    open spec fn wf(x: LookAtRangeMap) -> bool {
        LookAtRangeMap::spec_wf(x)
    }

    open spec fn encoding(x: LookAtRangeMap) -> JsonView {
        JsonView::Object(
            opt_entry::<Extensions>("extensions"@, x.extensions)
            + extras_entry("extras"@, x.extras)
            + opt_entry::<Number>("inputMaxValue"@, x.input_max_value)
            + opt_entry::<Number>("outputScale"@, x.output_scale)
        )
    }

    proof fn lemma_round_trip(x: LookAtRangeMap) {
        broadcast use group_lookup;

        reveal(LookAtRangeMap::spec_accepts);
        reveal(LookAtRangeMap::spec_denotes);
        reveal(LookAtRangeMap::spec_wf);
        reveal_strlit("extensions");
        reveal_strlit("extras");
        reveal_strlit("inputMaxValue");
        reveal_strlit("outputScale");
        assert("extensions"@.len() == 10);
        assert("extras"@.len() == 6);
        assert("inputMaxValue"@.len() == 13);
        assert("outputScale"@.len() == 11);
        let e = LookAtRangeMap::encoding(x);
        assert(get(e, "extensions"@) == opt_encoding(x.extensions));
        assert(get(e, "extras"@) == if x.extras@ != JsonView::Null { Some(x.extras@) } else { None });
        assert(get(e, "inputMaxValue"@) == opt_encoding(x.input_max_value));
        assert(get(e, "outputScale"@) == opt_encoding(x.output_scale));
        lemma_opt_field::<Extensions>(x.extensions);
        lemma_opt_field::<Number>(x.input_max_value);
        lemma_opt_field::<Number>(x.output_scale);
    }

    fn decode(j: &Json) -> (r: Result<LookAtRangeMap, DecodeError>) {
        proof {
            reveal(LookAtRangeMap::spec_accepts);
            reveal(LookAtRangeMap::spec_denotes);
            reveal(LookAtRangeMap::spec_wf);
        }
        if !j.is_object() {
            return Err(DecodeError);
        }
        let extensions = opt_field::<Extensions>(j, "extensions")?;
        let extras = extras_field(j, "extras");
        let input_max_value = opt_field::<Number>(j, "inputMaxValue")?;
        let output_scale = opt_field::<Number>(j, "outputScale")?;
        Ok(LookAtRangeMap {
            extensions,
            extras,
            input_max_value,
            output_scale,
        })
    }

    fn encode(&self) -> (j: Json) {
        let mut m: Vec<(String, Json)> = Vec::new();
        put_opt(&mut m, "extensions", &self.extensions);
        assert(entries_view(m@) =~= opt_entry::<Extensions>("extensions"@, self.extensions));
        put_extras(&mut m, "extras", &self.extras);
        put_opt(&mut m, "inputMaxValue", &self.input_max_value);
        put_opt(&mut m, "outputScale", &self.output_scale);
        Json::Object(m)
    }
}

/// Metadata and licensing of the model.
#[derive(Clone, Debug)]
pub struct Meta {
    pub allow_antisocial_or_hate_usage: Option<bool>,
    pub allow_excessively_sexual_usage: Option<bool>,
    pub allow_excessively_violent_usage: Option<bool>,
    pub allow_political_or_religious_usage: Option<bool>,
    pub allow_redistribution: Option<bool>,
    /// The authors of the model; there is at least one.
    pub authors: Vec<String>,
    pub avatar_permission: Option<AvatarPermissionType>,
    pub commercial_usage: Option<CommercialUsageType>,
    pub contact_information: Option<String>,
    pub copyright_information: Option<String>,
    pub credit_notation: Option<CreditNotationType>,
    pub extensions: Option<Extensions>,
    pub extras: Json,
    /// The URL of the license.
    pub license_url: String,
    pub modification: Option<ModificationType>,
    /// The name of the model.
    pub name: String,
    pub other_license_url: Option<String>,
    pub references: Option<Vec<String>>,
    pub third_party_licenses: Option<String>,
    /// The index of the thumbnail image.
    pub thumbnail_image: Option<usize>,
    /// The version of the model.
    pub version: Option<String>,
}

impl Meta {
    /// Decoding a JSON value as this entity succeeds.
    #[verifier::opaque]
    pub open spec fn spec_accepts(j: JsonView) -> bool {
        &&& j is Object
        &&& opt_ok::<bool>(get(j, "allowAntisocialOrHateUsage"@))
        &&& opt_ok::<bool>(get(j, "allowExcessivelySexualUsage"@))
        &&& opt_ok::<bool>(get(j, "allowExcessivelyViolentUsage"@))
        &&& opt_ok::<bool>(get(j, "allowPoliticalOrReligiousUsage"@))
        &&& opt_ok::<bool>(get(j, "allowRedistribution"@))
        &&& req_ok::<Vec<String>>(get(j, "authors"@))
        &&& opt_ok::<AvatarPermissionType>(get(j, "avatarPermission"@))
        &&& opt_ok::<CommercialUsageType>(get(j, "commercialUsage"@))
        &&& opt_ok::<String>(get(j, "contactInformation"@))
        &&& opt_ok::<String>(get(j, "copyrightInformation"@))
        &&& opt_ok::<CreditNotationType>(get(j, "creditNotation"@))
        &&& opt_ok::<Extensions>(get(j, "extensions"@))
        &&& req_ok::<String>(get(j, "licenseUrl"@))
        &&& opt_ok::<ModificationType>(get(j, "modification"@))
        &&& req_ok::<String>(get(j, "name"@))
        &&& opt_ok::<String>(get(j, "otherLicenseUrl"@))
        &&& opt_ok::<Vec<String>>(get(j, "references"@))
        &&& opt_ok::<String>(get(j, "thirdPartyLicenses"@))
        &&& opt_ok::<usize>(get(j, "thumbnailImage"@))
        &&& opt_ok::<String>(get(j, "version"@))
        &&& get(j, "authors"@) matches Some(JsonView::Array(s)) && s.len() > 0
    }

    /// `x` is the entity that the JSON value `j` decodes to.
    #[verifier::opaque]
    pub open spec fn spec_denotes(j: JsonView, x: Meta) -> bool {
        &&& opt_is::<bool>(get(j, "allowAntisocialOrHateUsage"@), x.allow_antisocial_or_hate_usage)
        &&& opt_is::<bool>(get(j, "allowExcessivelySexualUsage"@), x.allow_excessively_sexual_usage)
        &&& opt_is::<bool>(get(j, "allowExcessivelyViolentUsage"@), x.allow_excessively_violent_usage)
        &&& opt_is::<bool>(get(j, "allowPoliticalOrReligiousUsage"@), x.allow_political_or_religious_usage)
        &&& opt_is::<bool>(get(j, "allowRedistribution"@), x.allow_redistribution)
        &&& req_is::<Vec<String>>(get(j, "authors"@), x.authors)
        &&& opt_is::<AvatarPermissionType>(get(j, "avatarPermission"@), x.avatar_permission)
        &&& opt_is::<CommercialUsageType>(get(j, "commercialUsage"@), x.commercial_usage)
        &&& opt_is::<String>(get(j, "contactInformation"@), x.contact_information)
        &&& opt_is::<String>(get(j, "copyrightInformation"@), x.copyright_information)
        &&& opt_is::<CreditNotationType>(get(j, "creditNotation"@), x.credit_notation)
        &&& opt_is::<Extensions>(get(j, "extensions"@), x.extensions)
        &&& extras_is(get(j, "extras"@), x.extras)
        &&& req_is::<String>(get(j, "licenseUrl"@), x.license_url)
        &&& opt_is::<ModificationType>(get(j, "modification"@), x.modification)
        &&& req_is::<String>(get(j, "name"@), x.name)
        &&& opt_is::<String>(get(j, "otherLicenseUrl"@), x.other_license_url)
        &&& opt_is::<Vec<String>>(get(j, "references"@), x.references)
        &&& opt_is::<String>(get(j, "thirdPartyLicenses"@), x.third_party_licenses)
        &&& opt_is::<usize>(get(j, "thumbnailImage"@), x.thumbnail_image)
        &&& opt_is::<String>(get(j, "version"@), x.version)
    }

    /// Every map of the entity has unique keys, and so on down.
    #[verifier::opaque]
    pub open spec fn spec_wf(x: Meta) -> bool {
        &&& opt_wf::<bool>(x.allow_antisocial_or_hate_usage)
        &&& opt_wf::<bool>(x.allow_excessively_sexual_usage)
        &&& opt_wf::<bool>(x.allow_excessively_violent_usage)
        &&& opt_wf::<bool>(x.allow_political_or_religious_usage)
        &&& opt_wf::<bool>(x.allow_redistribution)
        &&& <Vec<String> as Codec>::wf(x.authors)
        &&& opt_wf::<AvatarPermissionType>(x.avatar_permission)
        &&& opt_wf::<CommercialUsageType>(x.commercial_usage)
        &&& opt_wf::<String>(x.contact_information)
        &&& opt_wf::<String>(x.copyright_information)
        &&& opt_wf::<CreditNotationType>(x.credit_notation)
        &&& opt_wf::<Extensions>(x.extensions)
        &&& <String as Codec>::wf(x.license_url)
        &&& opt_wf::<ModificationType>(x.modification)
        &&& <String as Codec>::wf(x.name)
        &&& opt_wf::<String>(x.other_license_url)
        &&& opt_wf::<Vec<String>>(x.references)
        &&& opt_wf::<String>(x.third_party_licenses)
        &&& opt_wf::<usize>(x.thumbnail_image)
        &&& opt_wf::<String>(x.version)
        &&& x.authors@.len() > 0
    }
}

impl Codec for Meta {
    open spec fn accepts(j: JsonView) -> bool {
        Meta::spec_accepts(j)
    }

    open spec fn denotes(j: JsonView, x: Meta) -> bool {
        Meta::spec_denotes(j, x)
    }

    open spec fn wf(x: Meta) -> bool {
        Meta::spec_wf(x)
    }

    open spec fn encoding(x: Meta) -> JsonView {
        JsonView::Object(
            opt_entry::<bool>("allowAntisocialOrHateUsage"@, x.allow_antisocial_or_hate_usage)
            + opt_entry::<bool>("allowExcessivelySexualUsage"@, x.allow_excessively_sexual_usage)
            + opt_entry::<bool>("allowExcessivelyViolentUsage"@, x.allow_excessively_violent_usage)
            + opt_entry::<bool>("allowPoliticalOrReligiousUsage"@, x.allow_political_or_religious_usage)
            + opt_entry::<bool>("allowRedistribution"@, x.allow_redistribution)
            + req_entry::<Vec<String>>("authors"@, x.authors)
            + opt_entry::<AvatarPermissionType>("avatarPermission"@, x.avatar_permission)
            + opt_entry::<CommercialUsageType>("commercialUsage"@, x.commercial_usage)
            + opt_entry::<String>("contactInformation"@, x.contact_information)
            + opt_entry::<String>("copyrightInformation"@, x.copyright_information)
            + opt_entry::<CreditNotationType>("creditNotation"@, x.credit_notation)
            + opt_entry::<Extensions>("extensions"@, x.extensions)
            + extras_entry("extras"@, x.extras)
            + req_entry::<String>("licenseUrl"@, x.license_url)
            + opt_entry::<ModificationType>("modification"@, x.modification)
            + req_entry::<String>("name"@, x.name)
            + opt_entry::<String>("otherLicenseUrl"@, x.other_license_url)
            + opt_entry::<Vec<String>>("references"@, x.references)
            + opt_entry::<String>("thirdPartyLicenses"@, x.third_party_licenses)
            + opt_entry::<usize>("thumbnailImage"@, x.thumbnail_image)
            + opt_entry::<String>("version"@, x.version)
        )
    }

    #[verifier::rlimit(100)]
    #[verifier::spinoff_prover]
    proof fn lemma_round_trip(x: Meta) {
        broadcast use group_lookup;

        reveal(Meta::spec_accepts);
        reveal(Meta::spec_denotes);
        reveal(Meta::spec_wf);
        reveal_strlit("allowAntisocialOrHateUsage");
        reveal_strlit("allowExcessivelySexualUsage");
        reveal_strlit("allowExcessivelyViolentUsage");
        reveal_strlit("allowPoliticalOrReligiousUsage");
        reveal_strlit("allowRedistribution");
        reveal_strlit("authors");
        reveal_strlit("avatarPermission");
        reveal_strlit("commercialUsage");
        reveal_strlit("contactInformation");
        reveal_strlit("copyrightInformation");
        reveal_strlit("creditNotation");
        reveal_strlit("extensions");
        reveal_strlit("extras");
        reveal_strlit("licenseUrl");
        reveal_strlit("modification");
        reveal_strlit("name");
        reveal_strlit("otherLicenseUrl");
        reveal_strlit("references");
        reveal_strlit("thirdPartyLicenses");
        reveal_strlit("thumbnailImage");
        reveal_strlit("version");
        assert("allowAntisocialOrHateUsage"@.len() == 26);
        assert("allowExcessivelySexualUsage"@.len() == 27);
        assert("allowExcessivelyViolentUsage"@.len() == 28);
        assert("allowPoliticalOrReligiousUsage"@.len() == 30);
        assert("allowRedistribution"@.len() == 19);
        assert("authors"@.len() == 7);
        assert("avatarPermission"@.len() == 16);
        assert("commercialUsage"@.len() == 15);
        assert("contactInformation"@.len() == 18);
        assert("copyrightInformation"@.len() == 20);
        assert("creditNotation"@.len() == 14);
        assert("extensions"@.len() == 10);
        assert("extras"@.len() == 6);
        assert("licenseUrl"@.len() == 10);
        assert("modification"@.len() == 12);
        assert("name"@.len() == 4);
        assert("otherLicenseUrl"@.len() == 15);
        assert("references"@.len() == 10);
        assert("thirdPartyLicenses"@.len() == 18);
        assert("thumbnailImage"@.len() == 14);
        assert("version"@.len() == 7);
        assert("authors"@[0] != "version"@[0]);
        assert("commercialUsage"@[0] != "otherLicenseUrl"@[0]);
        assert("contactInformation"@[0] != "thirdPartyLicenses"@[0]);
        assert("creditNotation"@[0] != "thumbnailImage"@[0]);
        assert("extensions"@[0] != "licenseUrl"@[0]);
        assert("extensions"@[0] != "references"@[0]);
        assert("licenseUrl"@[0] != "references"@[0]);
        let e = Meta::encoding(x);
        assert(get(e, "allowAntisocialOrHateUsage"@) == opt_encoding(x.allow_antisocial_or_hate_usage));
        assert(get(e, "allowExcessivelySexualUsage"@) == opt_encoding(x.allow_excessively_sexual_usage));
        assert(get(e, "allowExcessivelyViolentUsage"@) == opt_encoding(x.allow_excessively_violent_usage));
        assert(get(e, "allowPoliticalOrReligiousUsage"@) == opt_encoding(x.allow_political_or_religious_usage));
        assert(get(e, "allowRedistribution"@) == opt_encoding(x.allow_redistribution));
        assert(get(e, "authors"@) == Some(<Vec<String> as Codec>::encoding(x.authors)));
        assert(get(e, "avatarPermission"@) == opt_encoding(x.avatar_permission));
        assert(get(e, "commercialUsage"@) == opt_encoding(x.commercial_usage));
        assert(get(e, "contactInformation"@) == opt_encoding(x.contact_information));
        assert(get(e, "copyrightInformation"@) == opt_encoding(x.copyright_information));
        assert(get(e, "creditNotation"@) == opt_encoding(x.credit_notation));
        assert(get(e, "extensions"@) == opt_encoding(x.extensions));
        assert(get(e, "extras"@) == if x.extras@ != JsonView::Null { Some(x.extras@) } else { None });
        assert(get(e, "licenseUrl"@) == Some(<String as Codec>::encoding(x.license_url)));
        assert(get(e, "modification"@) == opt_encoding(x.modification));
        assert(get(e, "name"@) == Some(<String as Codec>::encoding(x.name)));
        assert(get(e, "otherLicenseUrl"@) == opt_encoding(x.other_license_url));
        assert(get(e, "references"@) == opt_encoding(x.references));
        assert(get(e, "thirdPartyLicenses"@) == opt_encoding(x.third_party_licenses));
        assert(get(e, "thumbnailImage"@) == opt_encoding(x.thumbnail_image));
        assert(get(e, "version"@) == opt_encoding(x.version));
        lemma_opt_field::<bool>(x.allow_antisocial_or_hate_usage);
        lemma_opt_field::<bool>(x.allow_excessively_sexual_usage);
        lemma_opt_field::<bool>(x.allow_excessively_violent_usage);
        lemma_opt_field::<bool>(x.allow_political_or_religious_usage);
        lemma_opt_field::<bool>(x.allow_redistribution);
        lemma_req_field::<Vec<String>>(x.authors);
        lemma_opt_field::<AvatarPermissionType>(x.avatar_permission);
        lemma_opt_field::<CommercialUsageType>(x.commercial_usage);
        lemma_opt_field::<String>(x.contact_information);
        lemma_opt_field::<String>(x.copyright_information);
        lemma_opt_field::<CreditNotationType>(x.credit_notation);
        lemma_opt_field::<Extensions>(x.extensions);
        lemma_req_field::<String>(x.license_url);
        lemma_opt_field::<ModificationType>(x.modification);
        lemma_req_field::<String>(x.name);
        lemma_opt_field::<String>(x.other_license_url);
        lemma_opt_field::<Vec<String>>(x.references);
        lemma_opt_field::<String>(x.third_party_licenses);
        lemma_opt_field::<usize>(x.thumbnail_image);
        lemma_opt_field::<String>(x.version);
    }

    fn decode(j: &Json) -> (r: Result<Meta, DecodeError>) {
        proof {
            reveal(Meta::spec_accepts);
            reveal(Meta::spec_denotes);
            reveal(Meta::spec_wf);
        }
        if !j.is_object() {
            return Err(DecodeError);
        }
        let allow_antisocial_or_hate_usage = opt_field::<bool>(j, "allowAntisocialOrHateUsage")?;
        let allow_excessively_sexual_usage = opt_field::<bool>(j, "allowExcessivelySexualUsage")?;
        let allow_excessively_violent_usage = opt_field::<bool>(j, "allowExcessivelyViolentUsage")?;
        let allow_political_or_religious_usage = opt_field::<bool>(j, "allowPoliticalOrReligiousUsage")?;
        let allow_redistribution = opt_field::<bool>(j, "allowRedistribution")?;
        let authors = req_field::<Vec<String>>(j, "authors")?;
        let avatar_permission = opt_field::<AvatarPermissionType>(j, "avatarPermission")?;
        let commercial_usage = opt_field::<CommercialUsageType>(j, "commercialUsage")?;
        let contact_information = opt_field::<String>(j, "contactInformation")?;
        let copyright_information = opt_field::<String>(j, "copyrightInformation")?;
        let credit_notation = opt_field::<CreditNotationType>(j, "creditNotation")?;
        let extensions = opt_field::<Extensions>(j, "extensions")?;
        let extras = extras_field(j, "extras");
        let license_url = req_field::<String>(j, "licenseUrl")?;
        let modification = opt_field::<ModificationType>(j, "modification")?;
        let name = req_field::<String>(j, "name")?;
        let other_license_url = opt_field::<String>(j, "otherLicenseUrl")?;
        let references = opt_field::<Vec<String>>(j, "references")?;
        let third_party_licenses = opt_field::<String>(j, "thirdPartyLicenses")?;
        let thumbnail_image = opt_field::<usize>(j, "thumbnailImage")?;
        let version = opt_field::<String>(j, "version")?;
        if authors.len() == 0 {
            return Err(DecodeError);
        }
        Ok(Meta {
            allow_antisocial_or_hate_usage,
            allow_excessively_sexual_usage,
            allow_excessively_violent_usage,
            allow_political_or_religious_usage,
            allow_redistribution,
            authors,
            avatar_permission,
            commercial_usage,
            contact_information,
            copyright_information,
            credit_notation,
            extensions,
            extras,
            license_url,
            modification,
            name,
            other_license_url,
            references,
            third_party_licenses,
            thumbnail_image,
            version,
        })
    }

    fn encode(&self) -> (j: Json) {
        let mut m: Vec<(String, Json)> = Vec::new();
        put_opt(&mut m, "allowAntisocialOrHateUsage", &self.allow_antisocial_or_hate_usage);
        assert(entries_view(m@) =~= opt_entry::<bool>("allowAntisocialOrHateUsage"@, self.allow_antisocial_or_hate_usage));
        put_opt(&mut m, "allowExcessivelySexualUsage", &self.allow_excessively_sexual_usage);
        put_opt(&mut m, "allowExcessivelyViolentUsage", &self.allow_excessively_violent_usage);
        put_opt(&mut m, "allowPoliticalOrReligiousUsage", &self.allow_political_or_religious_usage);
        put_opt(&mut m, "allowRedistribution", &self.allow_redistribution);
        put_req(&mut m, "authors", &self.authors);
        put_opt(&mut m, "avatarPermission", &self.avatar_permission);
        put_opt(&mut m, "commercialUsage", &self.commercial_usage);
        put_opt(&mut m, "contactInformation", &self.contact_information);
        put_opt(&mut m, "copyrightInformation", &self.copyright_information);
        put_opt(&mut m, "creditNotation", &self.credit_notation);
        put_opt(&mut m, "extensions", &self.extensions);
        put_extras(&mut m, "extras", &self.extras);
        put_req(&mut m, "licenseUrl", &self.license_url);
        put_opt(&mut m, "modification", &self.modification);
        put_req(&mut m, "name", &self.name);
        put_opt(&mut m, "otherLicenseUrl", &self.other_license_url);
        put_opt(&mut m, "references", &self.references);
        put_opt(&mut m, "thirdPartyLicenses", &self.third_party_licenses);
        put_opt(&mut m, "thumbnailImage", &self.thumbnail_image);
        put_opt(&mut m, "version", &self.version);
        Json::Object(m)
    }
}

/// The material color that a bind animates.
#[derive(Clone, Copy, Debug, PartialEq, Eq, Hash, Structural)]
pub enum MaterialColorType {
    Color,
    EmissionColor,
    MatcapColor,
    OutlineColor,
    RimColor,
    ShadeColor,
}

impl Name for MaterialColorType {
    open spec fn name(self) -> Seq<char> {
        match self {
            MaterialColorType::Color => "color"@,
            MaterialColorType::EmissionColor => "emissionColor"@,
            MaterialColorType::MatcapColor => "matcapColor"@,
            MaterialColorType::OutlineColor => "outlineColor"@,
            MaterialColorType::RimColor => "rimColor"@,
            MaterialColorType::ShadeColor => "shadeColor"@,
        }
    }

    open spec fn is_name(s: Seq<char>) -> bool {
        s == "color"@
        || s == "emissionColor"@
        || s == "matcapColor"@
        || s == "outlineColor"@
        || s == "rimColor"@
        || s == "shadeColor"@
    }

    proof fn lemma_name_is_name(x: MaterialColorType) {
    }

    fn from_name(s: &String) -> (r: Option<MaterialColorType>) {
        if eq_str(s, "color") {
            Some(MaterialColorType::Color)
        } else if eq_str(s, "emissionColor") {
            Some(MaterialColorType::EmissionColor)
        } else if eq_str(s, "matcapColor") {
            Some(MaterialColorType::MatcapColor)
        } else if eq_str(s, "outlineColor") {
            Some(MaterialColorType::OutlineColor)
        } else if eq_str(s, "rimColor") {
            Some(MaterialColorType::RimColor)
        } else if eq_str(s, "shadeColor") {
            Some(MaterialColorType::ShadeColor)
        } else {
            None
        }
    }

    fn to_name(&self) -> (r: String) {
        match self {
            MaterialColorType::Color => "color".to_owned(),
            MaterialColorType::EmissionColor => "emissionColor".to_owned(),
            MaterialColorType::MatcapColor => "matcapColor".to_owned(),
            MaterialColorType::OutlineColor => "outlineColor".to_owned(),
            MaterialColorType::RimColor => "rimColor".to_owned(),
            MaterialColorType::ShadeColor => "shadeColor".to_owned(),
        }
    }
}

impl Codec for MaterialColorType {
    open spec fn accepts(j: JsonView) -> bool {
        j matches JsonView::String(s) && MaterialColorType::is_name(s)
    }

    open spec fn denotes(j: JsonView, x: MaterialColorType) -> bool {
        j == JsonView::String(x.name())
    }

    open spec fn encoding(x: MaterialColorType) -> JsonView {
        JsonView::String(x.name())
    }

    open spec fn wf(x: MaterialColorType) -> bool {
        true
    }

    proof fn lemma_round_trip(x: MaterialColorType) {
        MaterialColorType::lemma_name_is_name(x);
    }

    fn decode(j: &Json) -> (r: Result<MaterialColorType, DecodeError>) {
        match j {
            Json::String(s) => match MaterialColorType::from_name(s) {
                Some(x) => Ok(x),
                None => Err(DecodeError),
            },
            _ => Err(DecodeError),
        }
    }

    fn encode(&self) -> (j: Json) {
        Json::String(self.to_name())
    }
}

/// How an expression overrides a group of others.
#[derive(Clone, Copy, Debug, PartialEq, Eq, Hash, Structural)]
pub enum ExpressionOverrideType {
    Blend,
    Block,
    /// The other expressions are left as they are.
    NoOverride,
}

impl Name for ExpressionOverrideType {
    open spec fn name(self) -> Seq<char> {
        match self {
            ExpressionOverrideType::Blend => "blend"@,
            ExpressionOverrideType::Block => "block"@,
            ExpressionOverrideType::NoOverride => "none"@,
        }
    }

    open spec fn is_name(s: Seq<char>) -> bool {
        s == "blend"@
        || s == "block"@
        || s == "none"@
    }

    proof fn lemma_name_is_name(x: ExpressionOverrideType) {
    }

    fn from_name(s: &String) -> (r: Option<ExpressionOverrideType>) {
        if eq_str(s, "blend") {
            Some(ExpressionOverrideType::Blend)
        } else if eq_str(s, "block") {
            Some(ExpressionOverrideType::Block)
        } else if eq_str(s, "none") {
            Some(ExpressionOverrideType::NoOverride)
        } else {
            None
        }
    }

    fn to_name(&self) -> (r: String) {
        match self {
            ExpressionOverrideType::Blend => "blend".to_owned(),
            ExpressionOverrideType::Block => "block".to_owned(),
            ExpressionOverrideType::NoOverride => "none".to_owned(),
        }
    }
}

impl Codec for ExpressionOverrideType {
    open spec fn accepts(j: JsonView) -> bool {
        j matches JsonView::String(s) && ExpressionOverrideType::is_name(s)
    }

    open spec fn denotes(j: JsonView, x: ExpressionOverrideType) -> bool {
        j == JsonView::String(x.name())
    }

    open spec fn encoding(x: ExpressionOverrideType) -> JsonView {
        JsonView::String(x.name())
    }

    open spec fn wf(x: ExpressionOverrideType) -> bool {
        true
    }

    proof fn lemma_round_trip(x: ExpressionOverrideType) {
        ExpressionOverrideType::lemma_name_is_name(x);
    }

    fn decode(j: &Json) -> (r: Result<ExpressionOverrideType, DecodeError>) {
        match j {
            Json::String(s) => match ExpressionOverrideType::from_name(s) {
                Some(x) => Ok(x),
                None => Err(DecodeError),
            },
            _ => Err(DecodeError),
        }
    }

    fn encode(&self) -> (j: Json) {
        Json::String(self.to_name())
    }
}

/// From which cameras a mesh is visible.
#[derive(Clone, Copy, Debug, PartialEq, Eq, Hash, Structural)]
pub enum FirstPersonType {
    Auto,
    Both,
    FirstPersonOnly,
    ThirdPersonOnly,
}

impl Name for FirstPersonType {
    open spec fn name(self) -> Seq<char> {
        match self {
            FirstPersonType::Auto => "auto"@,
            FirstPersonType::Both => "both"@,
            FirstPersonType::FirstPersonOnly => "firstPersonOnly"@,
            FirstPersonType::ThirdPersonOnly => "thirdPersonOnly"@,
        }
    }

    open spec fn is_name(s: Seq<char>) -> bool {
        s == "auto"@
        || s == "both"@
        || s == "firstPersonOnly"@
        || s == "thirdPersonOnly"@
    }

    proof fn lemma_name_is_name(x: FirstPersonType) {
    }

    fn from_name(s: &String) -> (r: Option<FirstPersonType>) {
        if eq_str(s, "auto") {
            Some(FirstPersonType::Auto)
        } else if eq_str(s, "both") {
            Some(FirstPersonType::Both)
        } else if eq_str(s, "firstPersonOnly") {
            Some(FirstPersonType::FirstPersonOnly)
        } else if eq_str(s, "thirdPersonOnly") {
            Some(FirstPersonType::ThirdPersonOnly)
        } else {
            None
        }
    }

    fn to_name(&self) -> (r: String) {
        match self {
            FirstPersonType::Auto => "auto".to_owned(),
            FirstPersonType::Both => "both".to_owned(),
            FirstPersonType::FirstPersonOnly => "firstPersonOnly".to_owned(),
            FirstPersonType::ThirdPersonOnly => "thirdPersonOnly".to_owned(),
        }
    }
}

impl Codec for FirstPersonType {
    open spec fn accepts(j: JsonView) -> bool {
        j matches JsonView::String(s) && FirstPersonType::is_name(s)
    }

    open spec fn denotes(j: JsonView, x: FirstPersonType) -> bool {
        j == JsonView::String(x.name())
    }

    open spec fn encoding(x: FirstPersonType) -> JsonView {
        JsonView::String(x.name())
    }

    open spec fn wf(x: FirstPersonType) -> bool {
        true
    }

    proof fn lemma_round_trip(x: FirstPersonType) {
        FirstPersonType::lemma_name_is_name(x);
    }

    fn decode(j: &Json) -> (r: Result<FirstPersonType, DecodeError>) {
        match j {
            Json::String(s) => match FirstPersonType::from_name(s) {
                Some(x) => Ok(x),
                None => Err(DecodeError),
            },
            _ => Err(DecodeError),
        }
    }

    fn encode(&self) -> (j: Json) {
        Json::String(self.to_name())
    }
}

/// Whether look-at turns bones or weights expressions.
#[derive(Clone, Copy, Debug, PartialEq, Eq, Hash, Structural)]
pub enum LookAtType {
    Bone,
    Expression,
}

impl Name for LookAtType {
    open spec fn name(self) -> Seq<char> {
        match self {
            LookAtType::Bone => "bone"@,
            LookAtType::Expression => "expression"@,
        }
    }

    open spec fn is_name(s: Seq<char>) -> bool {
        s == "bone"@
        || s == "expression"@
    }

    proof fn lemma_name_is_name(x: LookAtType) {
    }

    fn from_name(s: &String) -> (r: Option<LookAtType>) {
        if eq_str(s, "bone") {
            Some(LookAtType::Bone)
        } else if eq_str(s, "expression") {
            Some(LookAtType::Expression)
        } else {
            None
        }
    }

    fn to_name(&self) -> (r: String) {
        match self {
            LookAtType::Bone => "bone".to_owned(),
            LookAtType::Expression => "expression".to_owned(),
        }
    }
}

impl Codec for LookAtType {
    open spec fn accepts(j: JsonView) -> bool {
        j matches JsonView::String(s) && LookAtType::is_name(s)
    }

    open spec fn denotes(j: JsonView, x: LookAtType) -> bool {
        j == JsonView::String(x.name())
    }

    open spec fn encoding(x: LookAtType) -> JsonView {
        JsonView::String(x.name())
    }

    open spec fn wf(x: LookAtType) -> bool {
        true
    }

    proof fn lemma_round_trip(x: LookAtType) {
        LookAtType::lemma_name_is_name(x);
    }

    fn decode(j: &Json) -> (r: Result<LookAtType, DecodeError>) {
        match j {
            Json::String(s) => match LookAtType::from_name(s) {
                Some(x) => Ok(x),
                None => Err(DecodeError),
            },
            _ => Err(DecodeError),
        }
    }

    fn encode(&self) -> (j: Json) {
        Json::String(self.to_name())
    }
}

/// Who may use the avatar.
#[derive(Clone, Copy, Debug, PartialEq, Eq, Hash, Structural)]
pub enum AvatarPermissionType {
    Everyone,
    OnlyAuthor,
    OnlySeparatelyLicensedPerson,
}

impl Name for AvatarPermissionType {
    open spec fn name(self) -> Seq<char> {
        match self {
            AvatarPermissionType::Everyone => "everyone"@,
            AvatarPermissionType::OnlyAuthor => "onlyAuthor"@,
            AvatarPermissionType::OnlySeparatelyLicensedPerson => "onlySeparatelyLicensedPerson"@,
        }
    }

    open spec fn is_name(s: Seq<char>) -> bool {
        s == "everyone"@
        || s == "onlyAuthor"@
        || s == "onlySeparatelyLicensedPerson"@
    }

    proof fn lemma_name_is_name(x: AvatarPermissionType) {
    }

    fn from_name(s: &String) -> (r: Option<AvatarPermissionType>) {
        if eq_str(s, "everyone") {
            Some(AvatarPermissionType::Everyone)
        } else if eq_str(s, "onlyAuthor") {
            Some(AvatarPermissionType::OnlyAuthor)
        } else if eq_str(s, "onlySeparatelyLicensedPerson") {
            Some(AvatarPermissionType::OnlySeparatelyLicensedPerson)
        } else {
            None
        }
    }

    fn to_name(&self) -> (r: String) {
        match self {
            AvatarPermissionType::Everyone => "everyone".to_owned(),
            AvatarPermissionType::OnlyAuthor => "onlyAuthor".to_owned(),
            AvatarPermissionType::OnlySeparatelyLicensedPerson => "onlySeparatelyLicensedPerson".to_owned(),
        }
    }
}

impl Codec for AvatarPermissionType {
    open spec fn accepts(j: JsonView) -> bool {
        j matches JsonView::String(s) && AvatarPermissionType::is_name(s)
    }

    open spec fn denotes(j: JsonView, x: AvatarPermissionType) -> bool {
        j == JsonView::String(x.name())
    }

    open spec fn encoding(x: AvatarPermissionType) -> JsonView {
        JsonView::String(x.name())
    }

    open spec fn wf(x: AvatarPermissionType) -> bool {
        true
    }

    proof fn lemma_round_trip(x: AvatarPermissionType) {
        AvatarPermissionType::lemma_name_is_name(x);
    }

    fn decode(j: &Json) -> (r: Result<AvatarPermissionType, DecodeError>) {
        match j {
            Json::String(s) => match AvatarPermissionType::from_name(s) {
                Some(x) => Ok(x),
                None => Err(DecodeError),
            },
            _ => Err(DecodeError),
        }
    }

    fn encode(&self) -> (j: Json) {
        Json::String(self.to_name())
    }
}

/// Which commercial use is allowed.
#[derive(Clone, Copy, Debug, PartialEq, Eq, Hash, Structural)]
pub enum CommercialUsageType {
    Corporation,
    PersonalNonProfit,
    PersonalProfit,
}

impl Name for CommercialUsageType {
    open spec fn name(self) -> Seq<char> {
        match self {
            CommercialUsageType::Corporation => "corporation"@,
            CommercialUsageType::PersonalNonProfit => "personalNonProfit"@,
            CommercialUsageType::PersonalProfit => "personalProfit"@,
        }
    }

    open spec fn is_name(s: Seq<char>) -> bool {
        s == "corporation"@
        || s == "personalNonProfit"@
        || s == "personalProfit"@
    }

    proof fn lemma_name_is_name(x: CommercialUsageType) {
    }

    fn from_name(s: &String) -> (r: Option<CommercialUsageType>) {
        if eq_str(s, "corporation") {
            Some(CommercialUsageType::Corporation)
        } else if eq_str(s, "personalNonProfit") {
            Some(CommercialUsageType::PersonalNonProfit)
        } else if eq_str(s, "personalProfit") {
            Some(CommercialUsageType::PersonalProfit)
        } else {
            None
        }
    }

    fn to_name(&self) -> (r: String) {
        match self {
            CommercialUsageType::Corporation => "corporation".to_owned(),
            CommercialUsageType::PersonalNonProfit => "personalNonProfit".to_owned(),
            CommercialUsageType::PersonalProfit => "personalProfit".to_owned(),
        }
    }
}

impl Codec for CommercialUsageType {
    open spec fn accepts(j: JsonView) -> bool {
        j matches JsonView::String(s) && CommercialUsageType::is_name(s)
    }

    open spec fn denotes(j: JsonView, x: CommercialUsageType) -> bool {
        j == JsonView::String(x.name())
    }

    open spec fn encoding(x: CommercialUsageType) -> JsonView {
        JsonView::String(x.name())
    }

    open spec fn wf(x: CommercialUsageType) -> bool {
        true
    }

    proof fn lemma_round_trip(x: CommercialUsageType) {
        CommercialUsageType::lemma_name_is_name(x);
    }

    fn decode(j: &Json) -> (r: Result<CommercialUsageType, DecodeError>) {
        match j {
            Json::String(s) => match CommercialUsageType::from_name(s) {
                Some(x) => Ok(x),
                None => Err(DecodeError),
            },
            _ => Err(DecodeError),
        }
    }

    fn encode(&self) -> (j: Json) {
        Json::String(self.to_name())
    }
}

/// Whether credit must be given.
#[derive(Clone, Copy, Debug, PartialEq, Eq, Hash, Structural)]
pub enum CreditNotationType {
    Required,
    Unnecessary,
}

impl Name for CreditNotationType {
    open spec fn name(self) -> Seq<char> {
        match self {
            CreditNotationType::Required => "required"@,
            CreditNotationType::Unnecessary => "unnecessary"@,
        }
    }

    open spec fn is_name(s: Seq<char>) -> bool {
        s == "required"@
        || s == "unnecessary"@
    }

    proof fn lemma_name_is_name(x: CreditNotationType) {
    }

    fn from_name(s: &String) -> (r: Option<CreditNotationType>) {
        if eq_str(s, "required") {
            Some(CreditNotationType::Required)
        } else if eq_str(s, "unnecessary") {
            Some(CreditNotationType::Unnecessary)
        } else {
            None
        }
    }

    fn to_name(&self) -> (r: String) {
        match self {
            CreditNotationType::Required => "required".to_owned(),
            CreditNotationType::Unnecessary => "unnecessary".to_owned(),
        }
    }
}

impl Codec for CreditNotationType {
    open spec fn accepts(j: JsonView) -> bool {
        j matches JsonView::String(s) && CreditNotationType::is_name(s)
    }

    open spec fn denotes(j: JsonView, x: CreditNotationType) -> bool {
        j == JsonView::String(x.name())
    }

    open spec fn encoding(x: CreditNotationType) -> JsonView {
        JsonView::String(x.name())
    }

    open spec fn wf(x: CreditNotationType) -> bool {
        true
    }

    proof fn lemma_round_trip(x: CreditNotationType) {
        CreditNotationType::lemma_name_is_name(x);
    }

    fn decode(j: &Json) -> (r: Result<CreditNotationType, DecodeError>) {
        match j {
            Json::String(s) => match CreditNotationType::from_name(s) {
                Some(x) => Ok(x),
                None => Err(DecodeError),
            },
            _ => Err(DecodeError),
        }
    }

    fn encode(&self) -> (j: Json) {
        Json::String(self.to_name())
    }
}

/// Which modification is allowed.
#[derive(Clone, Copy, Debug, PartialEq, Eq, Hash, Structural)]
pub enum ModificationType {
    AllowModification,
    AllowModificationRedistribution,
    Prohibited,
}

impl Name for ModificationType {
    open spec fn name(self) -> Seq<char> {
        match self {
            ModificationType::AllowModification => "allowModification"@,
            ModificationType::AllowModificationRedistribution => "allowModificationRedistribution"@,
            ModificationType::Prohibited => "prohibited"@,
        }
    }

    open spec fn is_name(s: Seq<char>) -> bool {
        s == "allowModification"@
        || s == "allowModificationRedistribution"@
        || s == "prohibited"@
    }

    proof fn lemma_name_is_name(x: ModificationType) {
    }

    fn from_name(s: &String) -> (r: Option<ModificationType>) {
        if eq_str(s, "allowModification") {
            Some(ModificationType::AllowModification)
        } else if eq_str(s, "allowModificationRedistribution") {
            Some(ModificationType::AllowModificationRedistribution)
        } else if eq_str(s, "prohibited") {
            Some(ModificationType::Prohibited)
        } else {
            None
        }
    }

    fn to_name(&self) -> (r: String) {
        match self {
            ModificationType::AllowModification => "allowModification".to_owned(),
            ModificationType::AllowModificationRedistribution => "allowModificationRedistribution".to_owned(),
            ModificationType::Prohibited => "prohibited".to_owned(),
        }
    }
}

impl Codec for ModificationType {
    open spec fn accepts(j: JsonView) -> bool {
        j matches JsonView::String(s) && ModificationType::is_name(s)
    }

    open spec fn denotes(j: JsonView, x: ModificationType) -> bool {
        j == JsonView::String(x.name())
    }

    open spec fn encoding(x: ModificationType) -> JsonView {
        JsonView::String(x.name())
    }

    open spec fn wf(x: ModificationType) -> bool {
        true
    }

    proof fn lemma_round_trip(x: ModificationType) {
        ModificationType::lemma_name_is_name(x);
    }

    fn decode(j: &Json) -> (r: Result<ModificationType, DecodeError>) {
        match j {
            Json::String(s) => match ModificationType::from_name(s) {
                Some(x) => Ok(x),
                None => Err(DecodeError),
            },
            _ => Err(DecodeError),
        }
    }

    fn encode(&self) -> (j: Json) {
        Json::String(self.to_name())
    }
}

/// Decoding the encoding of a well-formed VRM 1.0 extension object gives it back.
pub proof fn lemma_vrm1_round_trip(x: VRMCVrmSchema)
    requires
        VRMCVrmSchema::wf(x),
    ensures
        VRMCVrmSchema::accepts(VRMCVrmSchema::encoding(x)),
        VRMCVrmSchema::denotes(VRMCVrmSchema::encoding(x), x),
{
    VRMCVrmSchema::lemma_round_trip(x);
}

} // verus!
