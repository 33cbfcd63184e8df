//! Data structures for the `VRM` 0.0 glTF extension.
use vstd::prelude::*;
use crate::json::{Json, JsonView, Number, get, entries_view};
use crate::codec::{
    Codec, opt_encoding, opt_wf, DecodeError, Name, StringMap, eq_str, opt_ok, opt_is, opt_entry,
    group_lookup, lemma_opt_field, opt_field, put_opt,
};
use crate::normalize::{
    index_field_ok, index_field_is, index_field, lemma_index_field, index_map_field_ok,
    index_map_field_is, index_map_field, lemma_index_map_field, number_map_field_ok,
    number_map_field_is, number_map_field, lemma_number_map_field,
};

verus! {

/// The name of the VRM 0.0 extension in a glTF document.
pub const VRM: &'static str = "VRM";

/// The offset of the first-person bone.
pub type FirstPersonBoneOffset = OptionalVector3;
/// The center of a bone's limits.
pub type Center = OptionalVector3;
/// The upper limit of a bone.
pub type Max = OptionalVector3;
/// The lower limit of a bone.
pub type Min = OptionalVector3;
/// The direction of gravity.
pub type GravityDir = OptionalVector3;
/// The offset of a collider from its node.
pub type Offset = OptionalVector3;

/// The root of the VRM 0.0 extension. Every field is optional.
#[derive(Clone, Debug)]
pub struct VRM0Schema {
    pub blend_shape_master: Option<VRMBlendShape>,
    /// The version of the exporter that wrote the file.
    pub exporter_version: Option<String>,
    pub first_person: Option<VRMFirstPerson>,
    pub humanoid: Option<VRMHumanoid>,
    pub material_properties: Option<Vec<VRMMaterial>>,
    pub meta: Option<VRMMeta>,
    pub secondary_animation: Option<VRMSecondaryAnimation>,
    /// The version of the VRM specification.
    pub spec_version: Option<String>,
}

impl VRM0Schema {
    /// Decoding a JSON value as this entity succeeds.
    #[verifier::opaque]
    pub open spec fn spec_accepts(j: JsonView) -> bool {
        &&& j is Object
        &&& opt_ok::<VRMBlendShape>(get(j, "blendShapeMaster"@))
        &&& opt_ok::<String>(get(j, "exporterVersion"@))
        &&& opt_ok::<VRMFirstPerson>(get(j, "firstPerson"@))
        &&& opt_ok::<VRMHumanoid>(get(j, "humanoid"@))
        &&& opt_ok::<Vec<VRMMaterial>>(get(j, "materialProperties"@))
        &&& opt_ok::<VRMMeta>(get(j, "meta"@))
        &&& opt_ok::<VRMSecondaryAnimation>(get(j, "secondaryAnimation"@))
        &&& opt_ok::<String>(get(j, "specVersion"@))
    }

    /// `x` is the entity that the JSON value `j` decodes to.
    #[verifier::opaque]
    pub open spec fn spec_denotes(j: JsonView, x: VRM0Schema) -> bool {
        &&& opt_is::<VRMBlendShape>(get(j, "blendShapeMaster"@), x.blend_shape_master)
        &&& opt_is::<String>(get(j, "exporterVersion"@), x.exporter_version)
        &&& opt_is::<VRMFirstPerson>(get(j, "firstPerson"@), x.first_person)
        &&& opt_is::<VRMHumanoid>(get(j, "humanoid"@), x.humanoid)
        &&& opt_is::<Vec<VRMMaterial>>(get(j, "materialProperties"@), x.material_properties)
        &&& opt_is::<VRMMeta>(get(j, "meta"@), x.meta)
        &&& opt_is::<VRMSecondaryAnimation>(get(j, "secondaryAnimation"@), x.secondary_animation)
        &&& opt_is::<String>(get(j, "specVersion"@), x.spec_version)
    }

    /// Every map of the entity has unique keys, and so on down.
    #[verifier::opaque]
    pub open spec fn spec_wf(x: VRM0Schema) -> bool {
        &&& opt_wf::<VRMBlendShape>(x.blend_shape_master)
        &&& opt_wf::<String>(x.exporter_version)
        &&& opt_wf::<VRMFirstPerson>(x.first_person)
        &&& opt_wf::<VRMHumanoid>(x.humanoid)
        &&& opt_wf::<Vec<VRMMaterial>>(x.material_properties)
        &&& opt_wf::<VRMMeta>(x.meta)
        &&& opt_wf::<VRMSecondaryAnimation>(x.secondary_animation)
        &&& opt_wf::<String>(x.spec_version)
    }
}

impl Codec for VRM0Schema {
    open spec fn accepts(j: JsonView) -> bool {
        VRM0Schema::spec_accepts(j)
    }

    open spec fn denotes(j: JsonView, x: VRM0Schema) -> bool {
        VRM0Schema::spec_denotes(j, x)
    }

    open spec fn wf(x: VRM0Schema) -> bool {
        VRM0Schema::spec_wf(x)
    }

    open spec fn encoding(x: VRM0Schema) -> JsonView {
        JsonView::Object(
            opt_entry::<VRMBlendShape>("blendShapeMaster"@, x.blend_shape_master)
            + opt_entry::<String>("exporterVersion"@, x.exporter_version)
            + opt_entry::<VRMFirstPerson>("firstPerson"@, x.first_person)
            + opt_entry::<VRMHumanoid>("humanoid"@, x.humanoid)
            + opt_entry::<Vec<VRMMaterial>>("materialProperties"@, x.material_properties)
            + opt_entry::<VRMMeta>("meta"@, x.meta)
            + opt_entry::<VRMSecondaryAnimation>("secondaryAnimation"@, x.secondary_animation)
            + opt_entry::<String>("specVersion"@, x.spec_version)
        )
    }

    proof fn lemma_round_trip(x: VRM0Schema) {
        broadcast use group_lookup;

        reveal(VRM0Schema::spec_accepts);
        reveal(VRM0Schema::spec_denotes);
        reveal(VRM0Schema::spec_wf);
        reveal_strlit("blendShapeMaster");
        reveal_strlit("exporterVersion");
        reveal_strlit("firstPerson");
        reveal_strlit("humanoid");
        reveal_strlit("materialProperties");
        reveal_strlit("meta");
        reveal_strlit("secondaryAnimation");
        reveal_strlit("specVersion");
        assert("blendShapeMaster"@.len() == 16);
        assert("exporterVersion"@.len() == 15);
        assert("firstPerson"@.len() == 11);
        assert("humanoid"@.len() == 8);
        assert("materialProperties"@.len() == 18);
        assert("meta"@.len() == 4);
        assert("secondaryAnimation"@.len() == 18);
        assert("specVersion"@.len() == 11);
        assert("firstPerson"@[0] != "specVersion"@[0]);
        assert("materialProperties"@[0] != "secondaryAnimation"@[0]);
        let e = VRM0Schema::encoding(x);
        assert(get(e, "blendShapeMaster"@) == opt_encoding(x.blend_shape_master));
        assert(get(e, "exporterVersion"@) == opt_encoding(x.exporter_version));
        assert(get(e, "firstPerson"@) == opt_encoding(x.first_person));
        assert(get(e, "humanoid"@) == opt_encoding(x.humanoid));
        assert(get(e, "materialProperties"@) == opt_encoding(x.material_properties));
        assert(get(e, "meta"@) == opt_encoding(x.meta));
        assert(get(e, "secondaryAnimation"@) == opt_encoding(x.secondary_animation));
        assert(get(e, "specVersion"@) == opt_encoding(x.spec_version));
        lemma_opt_field::<VRMBlendShape>(x.blend_shape_master);
        lemma_opt_field::<String>(x.exporter_version);
        lemma_opt_field::<VRMFirstPerson>(x.first_person);
        lemma_opt_field::<VRMHumanoid>(x.humanoid);
        lemma_opt_field::<Vec<VRMMaterial>>(x.material_properties);
        lemma_opt_field::<VRMMeta>(x.meta);
        lemma_opt_field::<VRMSecondaryAnimation>(x.secondary_animation);
        lemma_opt_field::<String>(x.spec_version);
    }

    fn decode(j: &Json) -> (r: Result<VRM0Schema, DecodeError>) {
        proof {
            reveal(VRM0Schema::spec_accepts);
            reveal(VRM0Schema::spec_denotes);
            reveal(VRM0Schema::spec_wf);
        }
        if !j.is_object() {
            return Err(DecodeError);
        }
        let blend_shape_master = opt_field::<VRMBlendShape>(j, "blendShapeMaster")?;
        let exporter_version = opt_field::<String>(j, "exporterVersion")?;
        let first_person = opt_field::<VRMFirstPerson>(j, "firstPerson")?;
        let humanoid = opt_field::<VRMHumanoid>(j, "humanoid")?;
        let material_properties = opt_field::<Vec<VRMMaterial>>(j, "materialProperties")?;
        let meta = opt_field::<VRMMeta>(j, "meta")?;
        let secondary_animation = opt_field::<VRMSecondaryAnimation>(j, "secondaryAnimation")?;
        let spec_version = opt_field::<String>(j, "specVersion")?;
        Ok(VRM0Schema {
            blend_shape_master,
            exporter_version,
            first_person,
            humanoid,
            material_properties,
            meta,
            secondary_animation,
            spec_version,
        })
    }

    fn encode(&self) -> (j: Json) {
        let mut m: Vec<(String, Json)> = Vec::new();
        put_opt(&mut m, "blendShapeMaster", &self.blend_shape_master);
        assert(entries_view(m@) =~= opt_entry::<VRMBlendShape>("blendShapeMaster"@, self.blend_shape_master));
        put_opt(&mut m, "exporterVersion", &self.exporter_version);
        put_opt(&mut m, "firstPerson", &self.first_person);
        put_opt(&mut m, "humanoid", &self.humanoid);
        put_opt(&mut m, "materialProperties", &self.material_properties);
        put_opt(&mut m, "meta", &self.meta);
        put_opt(&mut m, "secondaryAnimation", &self.secondary_animation);
        put_opt(&mut m, "specVersion", &self.spec_version);
        Json::Object(m)
    }
}

/// The blend-shape settings.
#[derive(Clone, Debug)]
pub struct VRMBlendShape {
    pub blend_shape_groups: Option<Vec<VRMBlendShapeGroup>>,
}

impl VRMBlendShape {
    /// Decoding a JSON value as this entity succeeds.
    #[verifier::opaque]
    pub open spec fn spec_accepts(j: JsonView) -> bool {
        &&& j is Object
        &&& opt_ok::<Vec<VRMBlendShapeGroup>>(get(j, "blendShapeGroups"@))
    }

    /// `x` is the entity that the JSON value `j` decodes to.
    #[verifier::opaque]
    pub open spec fn spec_denotes(j: JsonView, x: VRMBlendShape) -> bool {
        &&& opt_is::<Vec<VRMBlendShapeGroup>>(get(j, "blendShapeGroups"@), x.blend_shape_groups)
    }

    /// Every map of the entity has unique keys, and so on down.
    #[verifier::opaque]
    pub open spec fn spec_wf(x: VRMBlendShape) -> bool {
        &&& opt_wf::<Vec<VRMBlendShapeGroup>>(x.blend_shape_groups)
    }
}

impl Codec for VRMBlendShape {
    open spec fn accepts(j: JsonView) -> bool {
        VRMBlendShape::spec_accepts(j)
    }

    open spec fn denotes(j: JsonView, x: VRMBlendShape) -> bool {
        VRMBlendShape::spec_denotes(j, x)
    }

    open spec fn wf(x: VRMBlendShape) -> bool {
        VRMBlendShape::spec_wf(x)
    }

    open spec fn encoding(x: VRMBlendShape) -> JsonView {
        JsonView::Object(
            opt_entry::<Vec<VRMBlendShapeGroup>>("blendShapeGroups"@, x.blend_shape_groups)
        )
    }

    proof fn lemma_round_trip(x: VRMBlendShape) {
        broadcast use group_lookup;

        reveal(VRMBlendShape::spec_accepts);
        reveal(VRMBlendShape::spec_denotes);
        reveal(VRMBlendShape::spec_wf);
        reveal_strlit("blendShapeGroups");
        assert("blendShapeGroups"@.len() == 16);
        let e = VRMBlendShape::encoding(x);
        assert(get(e, "blendShapeGroups"@) == opt_encoding(x.blend_shape_groups));
        lemma_opt_field::<Vec<VRMBlendShapeGroup>>(x.blend_shape_groups);
    }

    fn decode(j: &Json) -> (r: Result<VRMBlendShape, DecodeError>) {
        proof {
            reveal(VRMBlendShape::spec_accepts);
            reveal(VRMBlendShape::spec_denotes);
            reveal(VRMBlendShape::spec_wf);
        }
        if !j.is_object() {
            return Err(DecodeError);
        }
        let blend_shape_groups = opt_field::<Vec<VRMBlendShapeGroup>>(j, "blendShapeGroups")?;
        Ok(VRMBlendShape {
            blend_shape_groups,
        })
    }

    fn encode(&self) -> (j: Json) {
        let mut m: Vec<(String, Json)> = Vec::new();
        put_opt(&mut m, "blendShapeGroups", &self.blend_shape_groups);
        assert(entries_view(m@) =~= opt_entry::<Vec<VRMBlendShapeGroup>>("blendShapeGroups"@, self.blend_shape_groups));
        Json::Object(m)
    }
}

/// A named expression.
#[derive(Clone, Debug)]
pub struct VRMBlendShapeGroup {
    /// The morph targets of the group.
    pub binds: Option<Vec<VRMBlendShapeBind>>,
    /// Whether the weight is rounded to 0 or 1.
    pub is_binary: Option<bool>,
    /// The material values of the group.
    pub material_values: Option<Vec<VRMBlendShapeMaterialBind>>,
    /// The name of the expression.
    pub name: Option<String>,
    /// The preset that the expression stands for.
    pub preset_name: Option<PresetName>,
}

impl VRMBlendShapeGroup {
    /// Decoding a JSON value as this entity succeeds.
    #[verifier::opaque]
    pub open spec fn spec_accepts(j: JsonView) -> bool {
        &&& j is Object
        &&& opt_ok::<Vec<VRMBlendShapeBind>>(get(j, "binds"@))
        &&& opt_ok::<bool>(get(j, "isBinary"@))
        &&& opt_ok::<Vec<VRMBlendShapeMaterialBind>>(get(j, "materialValues"@))
        &&& opt_ok::<String>(get(j, "name"@))
        &&& opt_ok::<PresetName>(get(j, "presetName"@))
    }

    /// `x` is the entity that the JSON value `j` decodes to.
    #[verifier::opaque]
    pub open spec fn spec_denotes(j: JsonView, x: VRMBlendShapeGroup) -> bool {
        &&& opt_is::<Vec<VRMBlendShapeBind>>(get(j, "binds"@), x.binds)
        &&& opt_is::<bool>(get(j, "isBinary"@), x.is_binary)
        &&& opt_is::<Vec<VRMBlendShapeMaterialBind>>(get(j, "materialValues"@), x.material_values)
        &&& opt_is::<String>(get(j, "name"@), x.name)
        &&& opt_is::<PresetName>(get(j, "presetName"@), x.preset_name)
    }

    /// Every map of the entity has unique keys, and so on down.
    #[verifier::opaque]
    pub open spec fn spec_wf(x: VRMBlendShapeGroup) -> bool {
        &&& opt_wf::<Vec<VRMBlendShapeBind>>(x.binds)
        &&& opt_wf::<bool>(x.is_binary)
        &&& opt_wf::<Vec<VRMBlendShapeMaterialBind>>(x.material_values)
        &&& opt_wf::<String>(x.name)
        &&& opt_wf::<PresetName>(x.preset_name)
    }
}

impl Codec for VRMBlendShapeGroup {
    open spec fn accepts(j: JsonView) -> bool {
        VRMBlendShapeGroup::spec_accepts(j)
    }

    open spec fn denotes(j: JsonView, x: VRMBlendShapeGroup) -> bool {
        VRMBlendShapeGroup::spec_denotes(j, x)
    }

    open spec fn wf(x: VRMBlendShapeGroup) -> bool {
        VRMBlendShapeGroup::spec_wf(x)
    }

    open spec fn encoding(x: VRMBlendShapeGroup) -> JsonView {
        JsonView::Object(
            opt_entry::<Vec<VRMBlendShapeBind>>("binds"@, x.binds)
            + opt_entry::<bool>("isBinary"@, x.is_binary)
            + opt_entry::<Vec<VRMBlendShapeMaterialBind>>("materialValues"@, x.material_values)
            + opt_entry::<String>("name"@, x.name)
            + opt_entry::<PresetName>("presetName"@, x.preset_name)
        )
    }

    proof fn lemma_round_trip(x: VRMBlendShapeGroup) {
        broadcast use group_lookup;

        reveal(VRMBlendShapeGroup::spec_accepts);
        reveal(VRMBlendShapeGroup::spec_denotes);
        reveal(VRMBlendShapeGroup::spec_wf);
        reveal_strlit("binds");
        reveal_strlit("isBinary");
        reveal_strlit("materialValues");
        reveal_strlit("name");
        reveal_strlit("presetName");
        assert("binds"@.len() == 5);
        assert("isBinary"@.len() == 8);
        assert("materialValues"@.len() == 14);
        assert("name"@.len() == 4);
        assert("presetName"@.len() == 10);
        let e = VRMBlendShapeGroup::encoding(x);
        assert(get(e, "binds"@) == opt_encoding(x.binds));
        assert(get(e, "isBinary"@) == opt_encoding(x.is_binary));
        assert(get(e, "materialValues"@) == opt_encoding(x.material_values));
        assert(get(e, "name"@) == opt_encoding(x.name));
        assert(get(e, "presetName"@) == opt_encoding(x.preset_name));
        lemma_opt_field::<Vec<VRMBlendShapeBind>>(x.binds);
        lemma_opt_field::<bool>(x.is_binary);
        lemma_opt_field::<Vec<VRMBlendShapeMaterialBind>>(x.material_values);
        lemma_opt_field::<String>(x.name);
        lemma_opt_field::<PresetName>(x.preset_name);
    }

    fn decode(j: &Json) -> (r: Result<VRMBlendShapeGroup, DecodeError>) {
        proof {
            reveal(VRMBlendShapeGroup::spec_accepts);
            reveal(VRMBlendShapeGroup::spec_denotes);
            reveal(VRMBlendShapeGroup::spec_wf);
        }
        if !j.is_object() {
            return Err(DecodeError);
        }
        let binds = opt_field::<Vec<VRMBlendShapeBind>>(j, "binds")?;
        let is_binary = opt_field::<bool>(j, "isBinary")?;
        let material_values = opt_field::<Vec<VRMBlendShapeMaterialBind>>(j, "materialValues")?;
        let name = opt_field::<String>(j, "name")?;
        let preset_name = opt_field::<PresetName>(j, "presetName")?;
        Ok(VRMBlendShapeGroup {
            binds,
            is_binary,
            material_values,
            name,
            preset_name,
        })
    }

    fn encode(&self) -> (j: Json) {
        let mut m: Vec<(String, Json)> = Vec::new();
        put_opt(&mut m, "binds", &self.binds);
        assert(entries_view(m@) =~= opt_entry::<Vec<VRMBlendShapeBind>>("binds"@, self.binds));
        put_opt(&mut m, "isBinary", &self.is_binary);
        put_opt(&mut m, "materialValues", &self.material_values);
        put_opt(&mut m, "name", &self.name);
        put_opt(&mut m, "presetName", &self.preset_name);
        Json::Object(m)
    }
}

/// A morph target that an expression animates.
#[derive(Clone, Debug)]
pub struct VRMBlendShapeBind {
    /// The index of the morph target.
    pub index: Option<i64>,
    /// The index of the mesh.
    pub mesh: Option<u32>,
    /// The weight of the morph target.
    pub weight: Option<Number>,
}

impl VRMBlendShapeBind {
    /// Decoding a JSON value as this entity succeeds.
    #[verifier::opaque]
    pub open spec fn spec_accepts(j: JsonView) -> bool {
        &&& j is Object
        &&& opt_ok::<i64>(get(j, "index"@))
        &&& index_field_ok(get(j, "mesh"@))
        &&& opt_ok::<Number>(get(j, "weight"@))
    }

    /// `x` is the entity that the JSON value `j` decodes to.
    #[verifier::opaque]
    pub open spec fn spec_denotes(j: JsonView, x: VRMBlendShapeBind) -> bool {
        &&& opt_is::<i64>(get(j, "index"@), x.index)
        &&& index_field_is(get(j, "mesh"@), x.mesh)
        &&& opt_is::<Number>(get(j, "weight"@), x.weight)
    }

    /// Every map of the entity has unique keys, and so on down.
    #[verifier::opaque]
    pub open spec fn spec_wf(x: VRMBlendShapeBind) -> bool {
        &&& opt_wf::<i64>(x.index)
        &&& opt_wf::<Number>(x.weight)
    }
}

impl Codec for VRMBlendShapeBind {
    open spec fn accepts(j: JsonView) -> bool {
        VRMBlendShapeBind::spec_accepts(j)
    }

    open spec fn denotes(j: JsonView, x: VRMBlendShapeBind) -> bool {
        VRMBlendShapeBind::spec_denotes(j, x)
    }

    open spec fn wf(x: VRMBlendShapeBind) -> bool {
        VRMBlendShapeBind::spec_wf(x)
    }

    open spec fn encoding(x: VRMBlendShapeBind) -> JsonView {
        JsonView::Object(
            opt_entry::<i64>("index"@, x.index)
            + opt_entry::<u32>("mesh"@, x.mesh)
            + opt_entry::<Number>("weight"@, x.weight)
        )
    }

    proof fn lemma_round_trip(x: VRMBlendShapeBind) {
        broadcast use group_lookup;

        reveal(VRMBlendShapeBind::spec_accepts);
        reveal(VRMBlendShapeBind::spec_denotes);
        reveal(VRMBlendShapeBind::spec_wf);
        reveal_strlit("index");
        reveal_strlit("mesh");
        reveal_strlit("weight");
        assert("index"@.len() == 5);
        assert("mesh"@.len() == 4);
        assert("weight"@.len() == 6);
        let e = VRMBlendShapeBind::encoding(x);
        assert(get(e, "index"@) == opt_encoding(x.index));
        assert(get(e, "mesh"@) == opt_encoding(x.mesh));
        assert(get(e, "weight"@) == opt_encoding(x.weight));
        lemma_opt_field::<i64>(x.index);
        lemma_index_field(x.mesh);
        lemma_opt_field::<Number>(x.weight);
    }

    fn decode(j: &Json) -> (r: Result<VRMBlendShapeBind, DecodeError>) {
        proof {
            reveal(VRMBlendShapeBind::spec_accepts);
            reveal(VRMBlendShapeBind::spec_denotes);
            reveal(VRMBlendShapeBind::spec_wf);
        }
        if !j.is_object() {
            return Err(DecodeError);
        }
        let index = opt_field::<i64>(j, "index")?;
        let mesh = index_field(j, "mesh")?;
        let weight = opt_field::<Number>(j, "weight")?;
        Ok(VRMBlendShapeBind {
            index,
            mesh,
            weight,
        })
    }

    fn encode(&self) -> (j: Json) {
        let mut m: Vec<(String, Json)> = Vec::new();
        put_opt(&mut m, "index", &self.index);
        assert(entries_view(m@) =~= opt_entry::<i64>("index"@, self.index));
        put_opt(&mut m, "mesh", &self.mesh);
        put_opt(&mut m, "weight", &self.weight);
        Json::Object(m)
    }
}

/// A material property that an expression animates.
#[derive(Clone, Debug)]
pub struct VRMBlendShapeMaterialBind {
    pub material_name: Option<String>,
    pub property_name: Option<String>,
    pub target_value: Option<Vec<Number>>,
}

impl VRMBlendShapeMaterialBind {
    /// Decoding a JSON value as this entity succeeds.
    #[verifier::opaque]
    pub open spec fn spec_accepts(j: JsonView) -> bool {
        &&& j is Object
        &&& opt_ok::<String>(get(j, "materialName"@))
        &&& opt_ok::<String>(get(j, "propertyName"@))
        &&& opt_ok::<Vec<Number>>(get(j, "targetValue"@))
    }

    /// `x` is the entity that the JSON value `j` decodes to.
    #[verifier::opaque]
    pub open spec fn spec_denotes(j: JsonView, x: VRMBlendShapeMaterialBind) -> bool {
        &&& opt_is::<String>(get(j, "materialName"@), x.material_name)
        &&& opt_is::<String>(get(j, "propertyName"@), x.property_name)
        &&& opt_is::<Vec<Number>>(get(j, "targetValue"@), x.target_value)
    }

    /// Every map of the entity has unique keys, and so on down.
    #[verifier::opaque]
    pub open spec fn spec_wf(x: VRMBlendShapeMaterialBind) -> bool {
        &&& opt_wf::<String>(x.material_name)
        &&& opt_wf::<String>(x.property_name)
        &&& opt_wf::<Vec<Number>>(x.target_value)
    }
}

impl Codec for VRMBlendShapeMaterialBind {
    open spec fn accepts(j: JsonView) -> bool {
        VRMBlendShapeMaterialBind::spec_accepts(j)
    }

    open spec fn denotes(j: JsonView, x: VRMBlendShapeMaterialBind) -> bool {
        VRMBlendShapeMaterialBind::spec_denotes(j, x)
    }

    open spec fn wf(x: VRMBlendShapeMaterialBind) -> bool {
        VRMBlendShapeMaterialBind::spec_wf(x)
    }

    open spec fn encoding(x: VRMBlendShapeMaterialBind) -> JsonView {
        JsonView::Object(
            opt_entry::<String>("materialName"@, x.material_name)
            + opt_entry::<String>("propertyName"@, x.property_name)
            + opt_entry::<Vec<Number>>("targetValue"@, x.target_value)
        )
    }

    proof fn lemma_round_trip(x: VRMBlendShapeMaterialBind) {
        broadcast use group_lookup;

        reveal(VRMBlendShapeMaterialBind::spec_accepts);
        reveal(VRMBlendShapeMaterialBind::spec_denotes);
        reveal(VRMBlendShapeMaterialBind::spec_wf);
        reveal_strlit("materialName");
        reveal_strlit("propertyName");
        reveal_strlit("targetValue");
        assert("materialName"@.len() == 12);
        assert("propertyName"@.len() == 12);
        assert("targetValue"@.len() == 11);
        assert("materialName"@[0] != "propertyName"@[0]);
        let e = VRMBlendShapeMaterialBind::encoding(x);
        assert(get(e, "materialName"@) == opt_encoding(x.material_name));
        assert(get(e, "propertyName"@) == opt_encoding(x.property_name));
        assert(get(e, "targetValue"@) == opt_encoding(x.target_value));
        lemma_opt_field::<String>(x.material_name);
        lemma_opt_field::<String>(x.property_name);
        lemma_opt_field::<Vec<Number>>(x.target_value);
    }

    fn decode(j: &Json) -> (r: Result<VRMBlendShapeMaterialBind, DecodeError>) {
        proof {
            reveal(VRMBlendShapeMaterialBind::spec_accepts);
            reveal(VRMBlendShapeMaterialBind::spec_denotes);
            reveal(VRMBlendShapeMaterialBind::spec_wf);
        }
        if !j.is_object() {
            return Err(DecodeError);
        }
        let material_name = opt_field::<String>(j, "materialName")?;
        let property_name = opt_field::<String>(j, "propertyName")?;
        let target_value = opt_field::<Vec<Number>>(j, "targetValue")?;
        Ok(VRMBlendShapeMaterialBind {
            material_name,
            property_name,
            target_value,
        })
    }

    fn encode(&self) -> (j: Json) {
        let mut m: Vec<(String, Json)> = Vec::new();
        put_opt(&mut m, "materialName", &self.material_name);
        assert(entries_view(m@) =~= opt_entry::<String>("materialName"@, self.material_name));
        put_opt(&mut m, "propertyName", &self.property_name);
        put_opt(&mut m, "targetValue", &self.target_value);
        Json::Object(m)
    }
}

/// First-person settings.
#[derive(Clone, Debug)]
pub struct VRMFirstPerson {
    /// The index of the node of the first-person bone.
    pub first_person_bone: Option<u32>,
    pub first_person_bone_offset: Option<FirstPersonBoneOffset>,
    pub look_at_horizontal_inner: Option<VRMFirstPersonDegreeMap>,
    pub look_at_horizontal_outer: Option<VRMFirstPersonDegreeMap>,
    pub look_at_type_name: Option<LookAtTypeName>,
    pub look_at_vertical_down: Option<VRMFirstPersonDegreeMap>,
    pub look_at_vertical_up: Option<VRMFirstPersonDegreeMap>,
    pub mesh_annotations: Option<Vec<VRMFirstPersonMeshAnnotation>>,
}

impl VRMFirstPerson {
    /// Decoding a JSON value as this entity succeeds.
    #[verifier::opaque]
    pub open spec fn spec_accepts(j: JsonView) -> bool {
        &&& j is Object
        &&& index_field_ok(get(j, "firstPersonBone"@))
        &&& opt_ok::<FirstPersonBoneOffset>(get(j, "firstPersonBoneOffset"@))
        &&& opt_ok::<VRMFirstPersonDegreeMap>(get(j, "lookAtHorizontalInner"@))
        &&& opt_ok::<VRMFirstPersonDegreeMap>(get(j, "lookAtHorizontalOuter"@))
        &&& opt_ok::<LookAtTypeName>(get(j, "lookAtTypeName"@))
        &&& opt_ok::<VRMFirstPersonDegreeMap>(get(j, "lookAtVerticalDown"@))
        &&& opt_ok::<VRMFirstPersonDegreeMap>(get(j, "lookAtVerticalUp"@))
        &&& opt_ok::<Vec<VRMFirstPersonMeshAnnotation>>(get(j, "meshAnnotations"@))
    }

    /// `x` is the entity that the JSON value `j` decodes to.
    #[verifier::opaque]
    pub open spec fn spec_denotes(j: JsonView, x: VRMFirstPerson) -> bool {
        &&& index_field_is(get(j, "firstPersonBone"@), x.first_person_bone)
        &&& opt_is::<FirstPersonBoneOffset>(get(j, "firstPersonBoneOffset"@), x.first_person_bone_offset)
        &&& opt_is::<VRMFirstPersonDegreeMap>(get(j, "lookAtHorizontalInner"@), x.look_at_horizontal_inner)
        &&& opt_is::<VRMFirstPersonDegreeMap>(get(j, "lookAtHorizontalOuter"@), x.look_at_horizontal_outer)
        &&& opt_is::<LookAtTypeName>(get(j, "lookAtTypeName"@), x.look_at_type_name)
        &&& opt_is::<VRMFirstPersonDegreeMap>(get(j, "lookAtVerticalDown"@), x.look_at_vertical_down)
        &&& opt_is::<VRMFirstPersonDegreeMap>(get(j, "lookAtVerticalUp"@), x.look_at_vertical_up)
        &&& opt_is::<Vec<VRMFirstPersonMeshAnnotation>>(get(j, "meshAnnotations"@), x.mesh_annotations)
    }

    /// Every map of the entity has unique keys, and so on down.
    #[verifier::opaque]
    pub open spec fn spec_wf(x: VRMFirstPerson) -> bool {
        &&& opt_wf::<FirstPersonBoneOffset>(x.first_person_bone_offset)
        &&& opt_wf::<VRMFirstPersonDegreeMap>(x.look_at_horizontal_inner)
        &&& opt_wf::<VRMFirstPersonDegreeMap>(x.look_at_horizontal_outer)
        &&& opt_wf::<LookAtTypeName>(x.look_at_type_name)
        &&& opt_wf::<VRMFirstPersonDegreeMap>(x.look_at_vertical_down)
        &&& opt_wf::<VRMFirstPersonDegreeMap>(x.look_at_vertical_up)
        &&& opt_wf::<Vec<VRMFirstPersonMeshAnnotation>>(x.mesh_annotations)
    }
}

impl Codec for VRMFirstPerson {
    open spec fn accepts(j: JsonView) -> bool {
        VRMFirstPerson::spec_accepts(j)
    }

    open spec fn denotes(j: JsonView, x: VRMFirstPerson) -> bool {
        VRMFirstPerson::spec_denotes(j, x)
    }

    open spec fn wf(x: VRMFirstPerson) -> bool {
        VRMFirstPerson::spec_wf(x)
    }

    open spec fn encoding(x: VRMFirstPerson) -> JsonView {
        JsonView::Object(
            opt_entry::<u32>("firstPersonBone"@, x.first_person_bone)
            + opt_entry::<FirstPersonBoneOffset>("firstPersonBoneOffset"@, x.first_person_bone_offset)
            + opt_entry::<VRMFirstPersonDegreeMap>("lookAtHorizontalInner"@, x.look_at_horizontal_inner)
            + opt_entry::<VRMFirstPersonDegreeMap>("lookAtHorizontalOuter"@, x.look_at_horizontal_outer)
            + opt_entry::<LookAtTypeName>("lookAtTypeName"@, x.look_at_type_name)
            + opt_entry::<VRMFirstPersonDegreeMap>("lookAtVerticalDown"@, x.look_at_vertical_down)
            + opt_entry::<VRMFirstPersonDegreeMap>("lookAtVerticalUp"@, x.look_at_vertical_up)
            + opt_entry::<Vec<VRMFirstPersonMeshAnnotation>>("meshAnnotations"@, x.mesh_annotations)
        )
    }

    proof fn lemma_round_trip(x: VRMFirstPerson) {
        broadcast use group_lookup;

        reveal(VRMFirstPerson::spec_accepts);
        reveal(VRMFirstPerson::spec_denotes);
        reveal(VRMFirstPerson::spec_wf);
        reveal_strlit("firstPersonBone");
        reveal_strlit("firstPersonBoneOffset");
        reveal_strlit("lookAtHorizontalInner");
        reveal_strlit("lookAtHorizontalOuter");
        reveal_strlit("lookAtTypeName");
        reveal_strlit("lookAtVerticalDown");
        reveal_strlit("lookAtVerticalUp");
        reveal_strlit("meshAnnotations");
        assert("firstPersonBone"@.len() == 15);
        assert("firstPersonBoneOffset"@.len() == 21);
        assert("lookAtHorizontalInner"@.len() == 21);
        assert("lookAtHorizontalOuter"@.len() == 21);
        assert("lookAtTypeName"@.len() == 14);
        assert("lookAtVerticalDown"@.len() == 18);
        assert("lookAtVerticalUp"@.len() == 16);
        assert("meshAnnotations"@.len() == 15);
        assert("firstPersonBone"@[0] != "meshAnnotations"@[0]);
        assert("firstPersonBoneOffset"@[0] != "lookAtHorizontalInner"@[0]);
        assert("firstPersonBoneOffset"@[0] != "lookAtHorizontalOuter"@[0]);
        assert("lookAtHorizontalInner"@[16] != "lookAtHorizontalOuter"@[16]);
        let e = VRMFirstPerson::encoding(x);
        assert(get(e, "firstPersonBone"@) == opt_encoding(x.first_person_bone));
        assert(get(e, "firstPersonBoneOffset"@) == opt_encoding(x.first_person_bone_offset));
        assert(get(e, "lookAtHorizontalInner"@) == opt_encoding(x.look_at_horizontal_inner));
        assert(get(e, "lookAtHorizontalOuter"@) == opt_encoding(x.look_at_horizontal_outer));
        assert(get(e, "lookAtTypeName"@) == opt_encoding(x.look_at_type_name));
        assert(get(e, "lookAtVerticalDown"@) == opt_encoding(x.look_at_vertical_down));
        assert(get(e, "lookAtVerticalUp"@) == opt_encoding(x.look_at_vertical_up));
        assert(get(e, "meshAnnotations"@) == opt_encoding(x.mesh_annotations));
        lemma_index_field(x.first_person_bone);
        lemma_opt_field::<FirstPersonBoneOffset>(x.first_person_bone_offset);
        lemma_opt_field::<VRMFirstPersonDegreeMap>(x.look_at_horizontal_inner);
        lemma_opt_field::<VRMFirstPersonDegreeMap>(x.look_at_horizontal_outer);
        lemma_opt_field::<LookAtTypeName>(x.look_at_type_name);
        lemma_opt_field::<VRMFirstPersonDegreeMap>(x.look_at_vertical_down);
        lemma_opt_field::<VRMFirstPersonDegreeMap>(x.look_at_vertical_up);
        lemma_opt_field::<Vec<VRMFirstPersonMeshAnnotation>>(x.mesh_annotations);
    }

    fn decode(j: &Json) -> (r: Result<VRMFirstPerson, DecodeError>) {
        proof {
            reveal(VRMFirstPerson::spec_accepts);
            reveal(VRMFirstPerson::spec_denotes);
            reveal(VRMFirstPerson::spec_wf);
        }
        if !j.is_object() {
            return Err(DecodeError);
        }
        let first_person_bone = index_field(j, "firstPersonBone")?;
        let first_person_bone_offset = opt_field::<FirstPersonBoneOffset>(j, "firstPersonBoneOffset")?;
        let look_at_horizontal_inner = opt_field::<VRMFirstPersonDegreeMap>(j, "lookAtHorizontalInner")?;
        let look_at_horizontal_outer = opt_field::<VRMFirstPersonDegreeMap>(j, "lookAtHorizontalOuter")?;
        let look_at_type_name = opt_field::<LookAtTypeName>(j, "lookAtTypeName")?;
        let look_at_vertical_down = opt_field::<VRMFirstPersonDegreeMap>(j, "lookAtVerticalDown")?;
        let look_at_vertical_up = opt_field::<VRMFirstPersonDegreeMap>(j, "lookAtVerticalUp")?;
        let mesh_annotations = opt_field::<Vec<VRMFirstPersonMeshAnnotation>>(j, "meshAnnotations")?;
        Ok(VRMFirstPerson {
            first_person_bone,
            first_person_bone_offset,
            look_at_horizontal_inner,
            look_at_horizontal_outer,
            look_at_type_name,
            look_at_vertical_down,
            look_at_vertical_up,
            mesh_annotations,
        })
    }

    fn encode(&self) -> (j: Json) {
        let mut m: Vec<(String, Json)> = Vec::new();
        put_opt(&mut m, "firstPersonBone", &self.first_person_bone);
        assert(entries_view(m@) =~= opt_entry::<u32>("firstPersonBone"@, self.first_person_bone));
        put_opt(&mut m, "firstPersonBoneOffset", &self.first_person_bone_offset);
        put_opt(&mut m, "lookAtHorizontalInner", &self.look_at_horizontal_inner);
        put_opt(&mut m, "lookAtHorizontalOuter", &self.look_at_horizontal_outer);
        put_opt(&mut m, "lookAtTypeName", &self.look_at_type_name);
        put_opt(&mut m, "lookAtVerticalDown", &self.look_at_vertical_down);
        put_opt(&mut m, "lookAtVerticalUp", &self.look_at_vertical_up);
        put_opt(&mut m, "meshAnnotations", &self.mesh_annotations);
        Json::Object(m)
    }
}

/// A vector whose every component may be missing.
#[derive(Clone, Debug)]
pub struct OptionalVector3 {
    pub x: Option<Number>,
    pub y: Option<Number>,
    pub z: Option<Number>,
}

impl OptionalVector3 {
    /// Decoding a JSON value as this entity succeeds.
    #[verifier::opaque]
    pub open spec fn spec_accepts(j: JsonView) -> bool {
        &&& j is Object
        &&& opt_ok::<Number>(get(j, "x"@))
        &&& opt_ok::<Number>(get(j, "y"@))
        &&& opt_ok::<Number>(get(j, "z"@))
    }

    /// `x` is the entity that the JSON value `j` decodes to.
    #[verifier::opaque]
    pub open spec fn spec_denotes(j: JsonView, x: OptionalVector3) -> bool {
        &&& opt_is::<Number>(get(j, "x"@), x.x)
        &&& opt_is::<Number>(get(j, "y"@), x.y)
        &&& opt_is::<Number>(get(j, "z"@), x.z)
    }

    /// Every map of the entity has unique keys, and so on down.
    #[verifier::opaque]
    pub open spec fn spec_wf(x: OptionalVector3) -> bool {
        &&& opt_wf::<Number>(x.x)
        &&& opt_wf::<Number>(x.y)
        &&& opt_wf::<Number>(x.z)
    }
}

impl Codec for OptionalVector3 {
    open spec fn accepts(j: JsonView) -> bool {
        OptionalVector3::spec_accepts(j)
    }

    open spec fn denotes(j: JsonView, x: OptionalVector3) -> bool {
        OptionalVector3::spec_denotes(j, x)
    }

    open spec fn wf(x: OptionalVector3) -> bool {
        OptionalVector3::spec_wf(x)
    }

    open spec fn encoding(x: OptionalVector3) -> JsonView {
        JsonView::Object(
            opt_entry::<Number>("x"@, x.x)
            + opt_entry::<Number>("y"@, x.y)
            + opt_entry::<Number>("z"@, x.z)
        )
    }

    proof fn lemma_round_trip(x: OptionalVector3) {
        broadcast use group_lookup;

        reveal(OptionalVector3::spec_accepts);
        reveal(OptionalVector3::spec_denotes);
        reveal(OptionalVector3::spec_wf);
        reveal_strlit("x");
        reveal_strlit("y");
        reveal_strlit("z");
        assert("x"@.len() == 1);
        assert("y"@.len() == 1);
        assert("z"@.len() == 1);
        assert("x"@[0] != "y"@[0]);
        assert("x"@[0] != "z"@[0]);
        assert("y"@[0] != "z"@[0]);
        let e = OptionalVector3::encoding(x);
        assert(get(e, "x"@) == opt_encoding(x.x));
        assert(get(e, "y"@) == opt_encoding(x.y));
        assert(get(e, "z"@) == opt_encoding(x.z));
        lemma_opt_field::<Number>(x.x);
        lemma_opt_field::<Number>(x.y);
        lemma_opt_field::<Number>(x.z);
    }

    fn decode(j: &Json) -> (r: Result<OptionalVector3, DecodeError>) {
        proof {
            reveal(OptionalVector3::spec_accepts);
            reveal(OptionalVector3::spec_denotes);
            reveal(OptionalVector3::spec_wf);
        }
        if !j.is_object() {
            return Err(DecodeError);
        }
        let x = opt_field::<Number>(j, "x")?;
        let y = opt_field::<Number>(j, "y")?;
        let z = opt_field::<Number>(j, "z")?;
        Ok(OptionalVector3 {
            x,
            y,
            z,
        })
    }

    fn encode(&self) -> (j: Json) {
        let mut m: Vec<(String, Json)> = Vec::new();
        put_opt(&mut m, "x", &self.x);
        assert(entries_view(m@) =~= opt_entry::<Number>("x"@, self.x));
        put_opt(&mut m, "y", &self.y);
        put_opt(&mut m, "z", &self.z);
        Json::Object(m)
    }
}

/// A nonlinear map from look-at angle to output.
#[derive(Clone, Debug)]
pub struct VRMFirstPersonDegreeMap {
    /// Keys of the curve, four numbers each: time, value, in-tangent, out-tangent.
    pub curve: Option<Vec<Number>>,
    /// The input range.
    pub x_range: Option<Number>,
    /// The output range.
    pub y_range: Option<Number>,
}

impl VRMFirstPersonDegreeMap {
    /// Decoding a JSON value as this entity succeeds.
    #[verifier::opaque]
    pub open spec fn spec_accepts(j: JsonView) -> bool {
        &&& j is Object
        &&& opt_ok::<Vec<Number>>(get(j, "curve"@))
        &&& opt_ok::<Number>(get(j, "xRange"@))
        &&& opt_ok::<Number>(get(j, "yRange"@))
    }

    /// `x` is the entity that the JSON value `j` decodes to.
    #[verifier::opaque]
    pub open spec fn spec_denotes(j: JsonView, x: VRMFirstPersonDegreeMap) -> bool {
        &&& opt_is::<Vec<Number>>(get(j, "curve"@), x.curve)
        &&& opt_is::<Number>(get(j, "xRange"@), x.x_range)
        &&& opt_is::<Number>(get(j, "yRange"@), x.y_range)
    }

    /// Every map of the entity has unique keys, and so on down.
    #[verifier::opaque]
    pub open spec fn spec_wf(x: VRMFirstPersonDegreeMap) -> bool {
        &&& opt_wf::<Vec<Number>>(x.curve)
        &&& opt_wf::<Number>(x.x_range)
        &&& opt_wf::<Number>(x.y_range)
    }
}

impl Codec for VRMFirstPersonDegreeMap {
    open spec fn accepts(j: JsonView) -> bool {
        VRMFirstPersonDegreeMap::spec_accepts(j)
    }

    open spec fn denotes(j: JsonView, x: VRMFirstPersonDegreeMap) -> bool {
        VRMFirstPersonDegreeMap::spec_denotes(j, x)
    }

    open spec fn wf(x: VRMFirstPersonDegreeMap) -> bool {
        VRMFirstPersonDegreeMap::spec_wf(x)
    }

    open spec fn encoding(x: VRMFirstPersonDegreeMap) -> JsonView {
        JsonView::Object(
            opt_entry::<Vec<Number>>("curve"@, x.curve)
            + opt_entry::<Number>("xRange"@, x.x_range)
            + opt_entry::<Number>("yRange"@, x.y_range)
        )
    }

    proof fn lemma_round_trip(x: VRMFirstPersonDegreeMap) {
        broadcast use group_lookup;

        reveal(VRMFirstPersonDegreeMap::spec_accepts);
        reveal(VRMFirstPersonDegreeMap::spec_denotes);
        reveal(VRMFirstPersonDegreeMap::spec_wf);
        reveal_strlit("curve");
        reveal_strlit("xRange");
        reveal_strlit("yRange");
        assert("curve"@.len() == 5);
        assert("xRange"@.len() == 6);
        assert("yRange"@.len() == 6);
        assert("xRange"@[0] != "yRange"@[0]);
        let e = VRMFirstPersonDegreeMap::encoding(x);
        assert(get(e, "curve"@) == opt_encoding(x.curve));
        assert(get(e, "xRange"@) == opt_encoding(x.x_range));
        assert(get(e, "yRange"@) == opt_encoding(x.y_range));
        lemma_opt_field::<Vec<Number>>(x.curve);
        lemma_opt_field::<Number>(x.x_range);
        lemma_opt_field::<Number>(x.y_range);
    }

    fn decode(j: &Json) -> (r: Result<VRMFirstPersonDegreeMap, DecodeError>) {
        proof {
            reveal(VRMFirstPersonDegreeMap::spec_accepts);
            reveal(VRMFirstPersonDegreeMap::spec_denotes);
            reveal(VRMFirstPersonDegreeMap::spec_wf);
        }
        if !j.is_object() {
            return Err(DecodeError);
        }
        let curve = opt_field::<Vec<Number>>(j, "curve")?;
        let x_range = opt_field::<Number>(j, "xRange")?;
        let y_range = opt_field::<Number>(j, "yRange")?;
        Ok(VRMFirstPersonDegreeMap {
            curve,
            x_range,
            y_range,
        })
    }

    fn encode(&self) -> (j: Json) {
        let mut m: Vec<(String, Json)> = Vec::new();
        put_opt(&mut m, "curve", &self.curve);
        assert(entries_view(m@) =~= opt_entry::<Vec<Number>>("curve"@, self.curve));
        put_opt(&mut m, "xRange", &self.x_range);
        put_opt(&mut m, "yRange", &self.y_range);
        Json::Object(m)
    }
}

/// How a mesh is seen from the first-person camera.
#[derive(Clone, Debug)]
pub struct VRMFirstPersonMeshAnnotation {
    pub first_person_flag: Option<String>,
    /// The index of the mesh.
    pub mesh: Option<u32>,
}

impl VRMFirstPersonMeshAnnotation {
    /// Decoding a JSON value as this entity succeeds.
    #[verifier::opaque]
    pub open spec fn spec_accepts(j: JsonView) -> bool {
        &&& j is Object
        &&& opt_ok::<String>(get(j, "firstPersonFlag"@))
        &&& index_field_ok(get(j, "mesh"@))
    }

    /// `x` is the entity that the JSON value `j` decodes to.
    #[verifier::opaque]
    pub open spec fn spec_denotes(j: JsonView, x: VRMFirstPersonMeshAnnotation) -> bool {
        &&& opt_is::<String>(get(j, "firstPersonFlag"@), x.first_person_flag)
        &&& index_field_is(get(j, "mesh"@), x.mesh)
    }

    /// Every map of the entity has unique keys, and so on down.
    #[verifier::opaque]
    pub open spec fn spec_wf(x: VRMFirstPersonMeshAnnotation) -> bool {
        &&& opt_wf::<String>(x.first_person_flag)
    }
}

impl Codec for VRMFirstPersonMeshAnnotation {
    open spec fn accepts(j: JsonView) -> bool {
        VRMFirstPersonMeshAnnotation::spec_accepts(j)
    }

    open spec fn denotes(j: JsonView, x: VRMFirstPersonMeshAnnotation) -> bool {
        VRMFirstPersonMeshAnnotation::spec_denotes(j, x)
    }

    open spec fn wf(x: VRMFirstPersonMeshAnnotation) -> bool {
        VRMFirstPersonMeshAnnotation::spec_wf(x)
    }

    open spec fn encoding(x: VRMFirstPersonMeshAnnotation) -> JsonView {
        JsonView::Object(
            opt_entry::<String>("firstPersonFlag"@, x.first_person_flag)
            + opt_entry::<u32>("mesh"@, x.mesh)
        )
    }

    proof fn lemma_round_trip(x: VRMFirstPersonMeshAnnotation) {
        broadcast use group_lookup;

        reveal(VRMFirstPersonMeshAnnotation::spec_accepts);
        reveal(VRMFirstPersonMeshAnnotation::spec_denotes);
        reveal(VRMFirstPersonMeshAnnotation::spec_wf);
        reveal_strlit("firstPersonFlag");
        reveal_strlit("mesh");
        assert("firstPersonFlag"@.len() == 15);
        assert("mesh"@.len() == 4);
        let e = VRMFirstPersonMeshAnnotation::encoding(x);
        assert(get(e, "firstPersonFlag"@) == opt_encoding(x.first_person_flag));
        assert(get(e, "mesh"@) == opt_encoding(x.mesh));
        lemma_opt_field::<String>(x.first_person_flag);
        lemma_index_field(x.mesh);
    }

    fn decode(j: &Json) -> (r: Result<VRMFirstPersonMeshAnnotation, DecodeError>) {
        proof {
            reveal(VRMFirstPersonMeshAnnotation::spec_accepts);
            reveal(VRMFirstPersonMeshAnnotation::spec_denotes);
            reveal(VRMFirstPersonMeshAnnotation::spec_wf);
        }
        if !j.is_object() {
            return Err(DecodeError);
        }
        let first_person_flag = opt_field::<String>(j, "firstPersonFlag")?;
        let mesh = index_field(j, "mesh")?;
        Ok(VRMFirstPersonMeshAnnotation {
            first_person_flag,
            mesh,
        })
    }

    fn encode(&self) -> (j: Json) {
        let mut m: Vec<(String, Json)> = Vec::new();
        put_opt(&mut m, "firstPersonFlag", &self.first_person_flag);
        assert(entries_view(m@) =~= opt_entry::<String>("firstPersonFlag"@, self.first_person_flag));
        put_opt(&mut m, "mesh", &self.mesh);
        Json::Object(m)
    }
}

/// The humanoid skeleton.
#[derive(Clone, Debug)]
pub struct VRMHumanoid {
    pub arm_stretch: Option<Number>,
    pub feet_spacing: Option<Number>,
    pub has_translation_do_f: Option<bool>,
    pub human_bones: Option<Vec<VRMHumanoidBone>>,
    pub leg_stretch: Option<Number>,
    pub lower_arm_twist: Option<Number>,
    pub lower_leg_twist: Option<Number>,
    pub upper_arm_twist: Option<Number>,
    pub upper_leg_twist: Option<Number>,
}

impl VRMHumanoid {
    /// Decoding a JSON value as this entity succeeds.
    #[verifier::opaque]
    pub open spec fn spec_accepts(j: JsonView) -> bool {
        &&& j is Object
        &&& opt_ok::<Number>(get(j, "armStretch"@))
        &&& opt_ok::<Number>(get(j, "feetSpacing"@))
        &&& opt_ok::<bool>(get(j, "hasTranslationDoF"@))
        &&& opt_ok::<Vec<VRMHumanoidBone>>(get(j, "humanBones"@))
        &&& opt_ok::<Number>(get(j, "legStretch"@))
        &&& opt_ok::<Number>(get(j, "lowerArmTwist"@))
        &&& opt_ok::<Number>(get(j, "lowerLegTwist"@))
        &&& opt_ok::<Number>(get(j, "upperArmTwist"@))
        &&& opt_ok::<Number>(get(j, "upperLegTwist"@))
    }

    /// `x` is the entity that the JSON value `j` decodes to.
    #[verifier::opaque]
    pub open spec fn spec_denotes(j: JsonView, x: VRMHumanoid) -> bool {
        &&& opt_is::<Number>(get(j, "armStretch"@), x.arm_stretch)
        &&& opt_is::<Number>(get(j, "feetSpacing"@), x.feet_spacing)
        &&& opt_is::<bool>(get(j, "hasTranslationDoF"@), x.has_translation_do_f)
        &&& opt_is::<Vec<VRMHumanoidBone>>(get(j, "humanBones"@), x.human_bones)
        &&& opt_is::<Number>(get(j, "legStretch"@), x.leg_stretch)
        &&& opt_is::<Number>(get(j, "lowerArmTwist"@), x.lower_arm_twist)
        &&& opt_is::<Number>(get(j, "lowerLegTwist"@), x.lower_leg_twist)
        &&& opt_is::<Number>(get(j, "upperArmTwist"@), x.upper_arm_twist)
        &&& opt_is::<Number>(get(j, "upperLegTwist"@), x.upper_leg_twist)
    }

    /// Every map of the entity has unique keys, and so on down.
    #[verifier::opaque]
    pub open spec fn spec_wf(x: VRMHumanoid) -> bool {
        &&& opt_wf::<Number>(x.arm_stretch)
        &&& opt_wf::<Number>(x.feet_spacing)
        &&& opt_wf::<bool>(x.has_translation_do_f)
        &&& opt_wf::<Vec<VRMHumanoidBone>>(x.human_bones)
        &&& opt_wf::<Number>(x.leg_stretch)
        &&& opt_wf::<Number>(x.lower_arm_twist)
        &&& opt_wf::<Number>(x.lower_leg_twist)
        &&& opt_wf::<Number>(x.upper_arm_twist)
        &&& opt_wf::<Number>(x.upper_leg_twist)
    }
}

impl Codec for VRMHumanoid {
    open spec fn accepts(j: JsonView) -> bool {
        VRMHumanoid::spec_accepts(j)
    }

    open spec fn denotes(j: JsonView, x: VRMHumanoid) -> bool {
        VRMHumanoid::spec_denotes(j, x)
    }

    open spec fn wf(x: VRMHumanoid) -> bool {
        VRMHumanoid::spec_wf(x)
    }

    open spec fn encoding(x: VRMHumanoid) -> JsonView {
        JsonView::Object(
            opt_entry::<Number>("armStretch"@, x.arm_stretch)
            + opt_entry::<Number>("feetSpacing"@, x.feet_spacing)
            + opt_entry::<bool>("hasTranslationDoF"@, x.has_translation_do_f)
            + opt_entry::<Vec<VRMHumanoidBone>>("humanBones"@, x.human_bones)
            + opt_entry::<Number>("legStretch"@, x.leg_stretch)
            + opt_entry::<Number>("lowerArmTwist"@, x.lower_arm_twist)
            + opt_entry::<Number>("lowerLegTwist"@, x.lower_leg_twist)
            + opt_entry::<Number>("upperArmTwist"@, x.upper_arm_twist)
            + opt_entry::<Number>("upperLegTwist"@, x.upper_leg_twist)
        )
    }

    proof fn lemma_round_trip(x: VRMHumanoid) {
        broadcast use group_lookup;

        reveal(VRMHumanoid::spec_accepts);
        reveal(VRMHumanoid::spec_denotes);
        reveal(VRMHumanoid::spec_wf);
        reveal_strlit("armStretch");
        reveal_strlit("feetSpacing");
        reveal_strlit("hasTranslationDoF");
        reveal_strlit("humanBones");
        reveal_strlit("legStretch");
        reveal_strlit("lowerArmTwist");
        reveal_strlit("lowerLegTwist");
        reveal_strlit("upperArmTwist");
        reveal_strlit("upperLegTwist");
        assert("armStretch"@.len() == 10);
        assert("feetSpacing"@.len() == 11);
        assert("hasTranslationDoF"@.len() == 17);
        assert("humanBones"@.len() == 10);
        assert("legStretch"@.len() == 10);
        assert("lowerArmTwist"@.len() == 13);
        assert("lowerLegTwist"@.len() == 13);
        assert("upperArmTwist"@.len() == 13);
        assert("upperLegTwist"@.len() == 13);
        assert("armStretch"@[0] != "humanBones"@[0]);
        assert("armStretch"@[0] != "legStretch"@[0]);
        assert("humanBones"@[0] != "legStretch"@[0]);
        assert("lowerArmTwist"@[5] != "lowerLegTwist"@[5]);
        assert("lowerArmTwist"@[0] != "upperArmTwist"@[0]);
        assert("lowerArmTwist"@[0] != "upperLegTwist"@[0]);
        assert("lowerLegTwist"@[0] != "upperArmTwist"@[0]);
        assert("lowerLegTwist"@[0] != "upperLegTwist"@[0]);
        assert("upperArmTwist"@[5] != "upperLegTwist"@[5]);
        let e = VRMHumanoid::encoding(x);
        assert(get(e, "armStretch"@) == opt_encoding(x.arm_stretch));
        assert(get(e, "feetSpacing"@) == opt_encoding(x.feet_spacing));
        assert(get(e, "hasTranslationDoF"@) == opt_encoding(x.has_translation_do_f));
        assert(get(e, "humanBones"@) == opt_encoding(x.human_bones));
        assert(get(e, "legStretch"@) == opt_encoding(x.leg_stretch));
        assert(get(e, "lowerArmTwist"@) == opt_encoding(x.lower_arm_twist));
        assert(get(e, "lowerLegTwist"@) == opt_encoding(x.lower_leg_twist));
        assert(get(e, "upperArmTwist"@) == opt_encoding(x.upper_arm_twist));
        assert(get(e, "upperLegTwist"@) == opt_encoding(x.upper_leg_twist));
        lemma_opt_field::<Number>(x.arm_stretch);
        lemma_opt_field::<Number>(x.feet_spacing);
        lemma_opt_field::<bool>(x.has_translation_do_f);
        lemma_opt_field::<Vec<VRMHumanoidBone>>(x.human_bones);
        lemma_opt_field::<Number>(x.leg_stretch);
        lemma_opt_field::<Number>(x.lower_arm_twist);
        lemma_opt_field::<Number>(x.lower_leg_twist);
        lemma_opt_field::<Number>(x.upper_arm_twist);
        lemma_opt_field::<Number>(x.upper_leg_twist);
    }

    fn decode(j: &Json) -> (r: Result<VRMHumanoid, DecodeError>) {
        proof {
            reveal(VRMHumanoid::spec_accepts);
            reveal(VRMHumanoid::spec_denotes);
            reveal(VRMHumanoid::spec_wf);
        }
        if !j.is_object() {
            return Err(DecodeError);
        }
        let arm_stretch = opt_field::<Number>(j, "armStretch")?;
        let feet_spacing = opt_field::<Number>(j, "feetSpacing")?;
        let has_translation_do_f = opt_field::<bool>(j, "hasTranslationDoF")?;
        let human_bones = opt_field::<Vec<VRMHumanoidBone>>(j, "humanBones")?;
        let leg_stretch = opt_field::<Number>(j, "legStretch")?;
        let lower_arm_twist = opt_field::<Number>(j, "lowerArmTwist")?;
        let lower_leg_twist = opt_field::<Number>(j, "lowerLegTwist")?;
        let upper_arm_twist = opt_field::<Number>(j, "upperArmTwist")?;
        let upper_leg_twist = opt_field::<Number>(j, "upperLegTwist")?;
        Ok(VRMHumanoid {
            arm_stretch,
            feet_spacing,
            has_translation_do_f,
            human_bones,
            leg_stretch,
            lower_arm_twist,
            lower_leg_twist,
            upper_arm_twist,
            upper_leg_twist,
        })
    }

    fn encode(&self) -> (j: Json) {
        let mut m: Vec<(String, Json)> = Vec::new();
        put_opt(&mut m, "armStretch", &self.arm_stretch);
        assert(entries_view(m@) =~= opt_entry::<Number>("armStretch"@, self.arm_stretch));
        put_opt(&mut m, "feetSpacing", &self.feet_spacing);
        put_opt(&mut m, "hasTranslationDoF", &self.has_translation_do_f);
        put_opt(&mut m, "humanBones", &self.human_bones);
        put_opt(&mut m, "legStretch", &self.leg_stretch);
        put_opt(&mut m, "lowerArmTwist", &self.lower_arm_twist);
        put_opt(&mut m, "lowerLegTwist", &self.lower_leg_twist);
        put_opt(&mut m, "upperArmTwist", &self.upper_arm_twist);
        put_opt(&mut m, "upperLegTwist", &self.upper_leg_twist);
        Json::Object(m)
    }
}

/// A binding of a humanoid bone to a node.
#[derive(Clone, Debug)]
pub struct VRMHumanoidBone {
    pub axis_length: Option<Number>,
    /// The bone of the humanoid.
    pub bone: Option<Bone>,
    pub center: Option<Center>,
    pub max: Option<Max>,
    pub min: Option<Min>,
    /// The index of the node.
    pub node: Option<u32>,
    pub use_default_values: Option<bool>,
}

impl VRMHumanoidBone {
    /// Decoding a JSON value as this entity succeeds.
    #[verifier::opaque]
    pub open spec fn spec_accepts(j: JsonView) -> bool {
        &&& j is Object
        &&& opt_ok::<Number>(get(j, "axisLength"@))
        &&& opt_ok::<Bone>(get(j, "bone"@))
        &&& opt_ok::<Center>(get(j, "center"@))
        &&& opt_ok::<Max>(get(j, "max"@))
        &&& opt_ok::<Min>(get(j, "min"@))
        &&& index_field_ok(get(j, "node"@))
        &&& opt_ok::<bool>(get(j, "useDefaultValues"@))
    }

    /// `x` is the entity that the JSON value `j` decodes to.
    #[verifier::opaque]
    pub open spec fn spec_denotes(j: JsonView, x: VRMHumanoidBone) -> bool {
        &&& opt_is::<Number>(get(j, "axisLength"@), x.axis_length)
        &&& opt_is::<Bone>(get(j, "bone"@), x.bone)
        &&& opt_is::<Center>(get(j, "center"@), x.center)
        &&& opt_is::<Max>(get(j, "max"@), x.max)
        &&& opt_is::<Min>(get(j, "min"@), x.min)
        &&& index_field_is(get(j, "node"@), x.node)
        &&& opt_is::<bool>(get(j, "useDefaultValues"@), x.use_default_values)
    }

    /// Every map of the entity has unique keys, and so on down.
    #[verifier::opaque]
    pub open spec fn spec_wf(x: VRMHumanoidBone) -> bool {
        &&& opt_wf::<Number>(x.axis_length)
        &&& opt_wf::<Bone>(x.bone)
        &&& opt_wf::<Center>(x.center)
        &&& opt_wf::<Max>(x.max)
        &&& opt_wf::<Min>(x.min)
        &&& opt_wf::<bool>(x.use_default_values)
    }
}

impl Codec for VRMHumanoidBone {
    open spec fn accepts(j: JsonView) -> bool {
        VRMHumanoidBone::spec_accepts(j)
    }

    open spec fn denotes(j: JsonView, x: VRMHumanoidBone) -> bool {
        VRMHumanoidBone::spec_denotes(j, x)
    }

    open spec fn wf(x: VRMHumanoidBone) -> bool {
        VRMHumanoidBone::spec_wf(x)
    }

    open spec fn encoding(x: VRMHumanoidBone) -> JsonView {
        JsonView::Object(
            opt_entry::<Number>("axisLength"@, x.axis_length)
            + opt_entry::<Bone>("bone"@, x.bone)
            + opt_entry::<Center>("center"@, x.center)
            + opt_entry::<Max>("max"@, x.max)
            + opt_entry::<Min>("min"@, x.min)
            + opt_entry::<u32>("node"@, x.node)
            + opt_entry::<bool>("useDefaultValues"@, x.use_default_values)
        )
    }

    proof fn lemma_round_trip(x: VRMHumanoidBone) {
        broadcast use group_lookup;

        reveal(VRMHumanoidBone::spec_accepts);
        reveal(VRMHumanoidBone::spec_denotes);
        reveal(VRMHumanoidBone::spec_wf);
        reveal_strlit("axisLength");
        reveal_strlit("bone");
        reveal_strlit("center");
        reveal_strlit("max");
        reveal_strlit("min");
        reveal_strlit("node");
        reveal_strlit("useDefaultValues");
        assert("axisLength"@.len() == 10);
        assert("bone"@.len() == 4);
        assert("center"@.len() == 6);
        assert("max"@.len() == 3);
        assert("min"@.len() == 3);
        assert("node"@.len() == 4);
        assert("useDefaultValues"@.len() == 16);
        assert("bone"@[0] != "node"@[0]);
        assert("max"@[1] != "min"@[1]);
        let e = VRMHumanoidBone::encoding(x);
        assert(get(e, "axisLength"@) == opt_encoding(x.axis_length));
        assert(get(e, "bone"@) == opt_encoding(x.bone));
        assert(get(e, "center"@) == opt_encoding(x.center));
        assert(get(e, "max"@) == opt_encoding(x.max));
        assert(get(e, "min"@) == opt_encoding(x.min));
        assert(get(e, "node"@) == opt_encoding(x.node));
        assert(get(e, "useDefaultValues"@) == opt_encoding(x.use_default_values));
        lemma_opt_field::<Number>(x.axis_length);
        lemma_opt_field::<Bone>(x.bone);
        lemma_opt_field::<Center>(x.center);
        lemma_opt_field::<Max>(x.max);
        lemma_opt_field::<Min>(x.min);
        lemma_index_field(x.node);
        lemma_opt_field::<bool>(x.use_default_values);
    }

    fn decode(j: &Json) -> (r: Result<VRMHumanoidBone, DecodeError>) {
        proof {
            reveal(VRMHumanoidBone::spec_accepts);
            reveal(VRMHumanoidBone::spec_denotes);
            reveal(VRMHumanoidBone::spec_wf);
        }
        if !j.is_object() {
            return Err(DecodeError);
        }
        let axis_length = opt_field::<Number>(j, "axisLength")?;
        let bone = opt_field::<Bone>(j, "bone")?;
        let center = opt_field::<Center>(j, "center")?;
        let max = opt_field::<Max>(j, "max")?;
        let min = opt_field::<Min>(j, "min")?;
        let node = index_field(j, "node")?;
        let use_default_values = opt_field::<bool>(j, "useDefaultValues")?;
        Ok(VRMHumanoidBone {
            axis_length,
            bone,
            center,
            max,
            min,
            node,
            use_default_values,
        })
    }

    fn encode(&self) -> (j: Json) {
        let mut m: Vec<(String, Json)> = Vec::new();
        put_opt(&mut m, "axisLength", &self.axis_length);
        assert(entries_view(m@) =~= opt_entry::<Number>("axisLength"@, self.axis_length));
        put_opt(&mut m, "bone", &self.bone);
        put_opt(&mut m, "center", &self.center);
        put_opt(&mut m, "max", &self.max);
        put_opt(&mut m, "min", &self.min);
        put_opt(&mut m, "node", &self.node);
        put_opt(&mut m, "useDefaultValues", &self.use_default_values);
        Json::Object(m)
    }
}

/// The shader properties of a material.
#[derive(Clone, Debug)]
pub struct VRMMaterial {
    /// Number properties; a `null` value leaves the property out.
    pub float_properties: Option<StringMap<Number>>,
    pub keyword_map: Option<StringMap<bool>>,
    pub name: Option<String>,
    pub render_queue: Option<i64>,
    pub shader: Option<String>,
    pub tag_map: Option<StringMap<String>>,
    /// Texture properties; a negative index leaves the property out.
    pub texture_properties: Option<StringMap<u32>>,
    pub vector_properties: Option<StringMap<Vec<Number>>>,
}

impl VRMMaterial {
    /// Decoding a JSON value as this entity succeeds.
    #[verifier::opaque]
    pub open spec fn spec_accepts(j: JsonView) -> bool {
        &&& j is Object
        &&& number_map_field_ok(get(j, "floatProperties"@))
        &&& opt_ok::<StringMap<bool>>(get(j, "keywordMap"@))
        &&& opt_ok::<String>(get(j, "name"@))
        &&& opt_ok::<i64>(get(j, "renderQueue"@))
        &&& opt_ok::<String>(get(j, "shader"@))
        &&& opt_ok::<StringMap<String>>(get(j, "tagMap"@))
        &&& index_map_field_ok(get(j, "textureProperties"@))
        &&& opt_ok::<StringMap<Vec<Number>>>(get(j, "vectorProperties"@))
    }

    /// `x` is the entity that the JSON value `j` decodes to.
    #[verifier::opaque]
    pub open spec fn spec_denotes(j: JsonView, x: VRMMaterial) -> bool {
        &&& number_map_field_is(get(j, "floatProperties"@), x.float_properties)
        &&& opt_is::<StringMap<bool>>(get(j, "keywordMap"@), x.keyword_map)
        &&& opt_is::<String>(get(j, "name"@), x.name)
        &&& opt_is::<i64>(get(j, "renderQueue"@), x.render_queue)
        &&& opt_is::<String>(get(j, "shader"@), x.shader)
        &&& opt_is::<StringMap<String>>(get(j, "tagMap"@), x.tag_map)
        &&& index_map_field_is(get(j, "textureProperties"@), x.texture_properties)
        &&& opt_is::<StringMap<Vec<Number>>>(get(j, "vectorProperties"@), x.vector_properties)
    }

    /// Every map of the entity has unique keys, and so on down.
    #[verifier::opaque]
    pub open spec fn spec_wf(x: VRMMaterial) -> bool {
        &&& opt_wf::<StringMap<Number>>(x.float_properties)
        &&& opt_wf::<StringMap<bool>>(x.keyword_map)
        &&& opt_wf::<String>(x.name)
        &&& opt_wf::<i64>(x.render_queue)
        &&& opt_wf::<String>(x.shader)
        &&& opt_wf::<StringMap<String>>(x.tag_map)
        &&& opt_wf::<StringMap<u32>>(x.texture_properties)
        &&& opt_wf::<StringMap<Vec<Number>>>(x.vector_properties)
    }
}

impl Codec for VRMMaterial {
    open spec fn accepts(j: JsonView) -> bool {
        VRMMaterial::spec_accepts(j)
    }

    open spec fn denotes(j: JsonView, x: VRMMaterial) -> bool {
        VRMMaterial::spec_denotes(j, x)
    }

    open spec fn wf(x: VRMMaterial) -> bool {
        VRMMaterial::spec_wf(x)
    }

    open spec fn encoding(x: VRMMaterial) -> JsonView {
        JsonView::Object(
            opt_entry::<StringMap<Number>>("floatProperties"@, x.float_properties)
            + opt_entry::<StringMap<bool>>("keywordMap"@, x.keyword_map)
            + opt_entry::<String>("name"@, x.name)
            + opt_entry::<i64>("renderQueue"@, x.render_queue)
            + opt_entry::<String>("shader"@, x.shader)
            + opt_entry::<StringMap<String>>("tagMap"@, x.tag_map)
            + opt_entry::<StringMap<u32>>("textureProperties"@, x.texture_properties)
            + opt_entry::<StringMap<Vec<Number>>>("vectorProperties"@, x.vector_properties)
        )
    }

    proof fn lemma_round_trip(x: VRMMaterial) {
        broadcast use group_lookup;

        reveal(VRMMaterial::spec_accepts);
        reveal(VRMMaterial::spec_denotes);
        reveal(VRMMaterial::spec_wf);
        reveal_strlit("floatProperties");
        reveal_strlit("keywordMap");
        reveal_strlit("name");
        reveal_strlit("renderQueue");
        reveal_strlit("shader");
        reveal_strlit("tagMap");
        reveal_strlit("textureProperties");
        reveal_strlit("vectorProperties");
        assert("floatProperties"@.len() == 15);
        assert("keywordMap"@.len() == 10);
        assert("name"@.len() == 4);
        assert("renderQueue"@.len() == 11);
        assert("shader"@.len() == 6);
        assert("tagMap"@.len() == 6);
        assert("textureProperties"@.len() == 17);
        assert("vectorProperties"@.len() == 16);
        assert("shader"@[0] != "tagMap"@[0]);
        let e = VRMMaterial::encoding(x);
        assert(get(e, "floatProperties"@) == opt_encoding(x.float_properties));
        assert(get(e, "keywordMap"@) == opt_encoding(x.keyword_map));
        assert(get(e, "name"@) == opt_encoding(x.name));
        assert(get(e, "renderQueue"@) == opt_encoding(x.render_queue));
        assert(get(e, "shader"@) == opt_encoding(x.shader));
        assert(get(e, "tagMap"@) == opt_encoding(x.tag_map));
        assert(get(e, "textureProperties"@) == opt_encoding(x.texture_properties));
        assert(get(e, "vectorProperties"@) == opt_encoding(x.vector_properties));
        lemma_number_map_field(x.float_properties);
        lemma_opt_field::<StringMap<bool>>(x.keyword_map);
        lemma_opt_field::<String>(x.name);
        lemma_opt_field::<i64>(x.render_queue);
        lemma_opt_field::<String>(x.shader);
        lemma_opt_field::<StringMap<String>>(x.tag_map);
        lemma_index_map_field(x.texture_properties);
        lemma_opt_field::<StringMap<Vec<Number>>>(x.vector_properties);
    }

    fn decode(j: &Json) -> (r: Result<VRMMaterial, DecodeError>) {
        proof {
            reveal(VRMMaterial::spec_accepts);
            reveal(VRMMaterial::spec_denotes);
            reveal(VRMMaterial::spec_wf);
        }
        if !j.is_object() {
            return Err(DecodeError);
        }
        let float_properties = number_map_field(j, "floatProperties")?;
        let keyword_map = opt_field::<StringMap<bool>>(j, "keywordMap")?;
        let name = opt_field::<String>(j, "name")?;
        let render_queue = opt_field::<i64>(j, "renderQueue")?;
        let shader = opt_field::<String>(j, "shader")?;
        let tag_map = opt_field::<StringMap<String>>(j, "tagMap")?;
        let texture_properties = index_map_field(j, "textureProperties")?;
        let vector_properties = opt_field::<StringMap<Vec<Number>>>(j, "vectorProperties")?;
        Ok(VRMMaterial {
            float_properties,
            keyword_map,
            name,
            render_queue,
            shader,
            tag_map,
            texture_properties,
            vector_properties,
        })
    }

    fn encode(&self) -> (j: Json) {
        let mut m: Vec<(String, Json)> = Vec::new();
        put_opt(&mut m, "floatProperties", &self.float_properties);
        assert(entries_view(m@) =~= opt_entry::<StringMap<Number>>("floatProperties"@, self.float_properties));
        put_opt(&mut m, "keywordMap", &self.keyword_map);
        put_opt(&mut m, "name", &self.name);
        put_opt(&mut m, "renderQueue", &self.render_queue);
        put_opt(&mut m, "shader", &self.shader);
        put_opt(&mut m, "tagMap", &self.tag_map);
        put_opt(&mut m, "textureProperties", &self.texture_properties);
        put_opt(&mut m, "vectorProperties", &self.vector_properties);
        Json::Object(m)
    }
}

/// Metadata and licensing of the model.
#[derive(Clone, Debug)]
pub struct VRMMeta {
    pub allowed_user_name: Option<AllowedUserName>,
    pub author: Option<String>,
    pub commercial_ussage_name: Option<UssageName>,
    pub contact_information: Option<String>,
    pub license_name: Option<LicenseName>,
    pub other_license_url: Option<String>,
    pub other_permission_url: Option<String>,
    pub reference: Option<String>,
    pub sexual_ussage_name: Option<UssageName>,
    /// The index of the thumbnail texture.
    pub texture: Option<u32>,
    pub title: Option<String>,
    pub version: Option<String>,
    pub violent_ussage_name: Option<UssageName>,
}

impl VRMMeta {
    /// Decoding a JSON value as this entity succeeds.
    #[verifier::opaque]
    pub open spec fn spec_accepts(j: JsonView) -> bool {
        &&& j is Object
        &&& opt_ok::<AllowedUserName>(get(j, "allowedUserName"@))
        &&& opt_ok::<String>(get(j, "author"@))
        &&& opt_ok::<UssageName>(get(j, "commercialUssageName"@))
        &&& opt_ok::<String>(get(j, "contactInformation"@))
        &&& opt_ok::<LicenseName>(get(j, "licenseName"@))
        &&& opt_ok::<String>(get(j, "otherLicenseUrl"@))
        &&& opt_ok::<String>(get(j, "otherPermissionUrl"@))
        &&& opt_ok::<String>(get(j, "reference"@))
        &&& opt_ok::<UssageName>(get(j, "sexualUssageName"@))
        &&& index_field_ok(get(j, "texture"@))
        &&& opt_ok::<String>(get(j, "title"@))
        &&& opt_ok::<String>(get(j, "version"@))
        &&& opt_ok::<UssageName>(get(j, "violentUssageName"@))
    }

    /// `x` is the entity that the JSON value `j` decodes to.
    #[verifier::opaque]
    pub open spec fn spec_denotes(j: JsonView, x: VRMMeta) -> bool {
        &&& opt_is::<AllowedUserName>(get(j, "allowedUserName"@), x.allowed_user_name)
        &&& opt_is::<String>(get(j, "author"@), x.author)
        &&& opt_is::<UssageName>(get(j, "commercialUssageName"@), x.commercial_ussage_name)
        &&& opt_is::<String>(get(j, "contactInformation"@), x.contact_information)
        &&& opt_is::<LicenseName>(get(j, "licenseName"@), x.license_name)
        &&& opt_is::<String>(get(j, "otherLicenseUrl"@), x.other_license_url)
        &&& opt_is::<String>(get(j, "otherPermissionUrl"@), x.other_permission_url)
        &&& opt_is::<String>(get(j, "reference"@), x.reference)
        &&& opt_is::<UssageName>(get(j, "sexualUssageName"@), x.sexual_ussage_name)
        &&& index_field_is(get(j, "texture"@), x.texture)
        &&& opt_is::<String>(get(j, "title"@), x.title)
        &&& opt_is::<String>(get(j, "version"@), x.version)
        &&& opt_is::<UssageName>(get(j, "violentUssageName"@), x.violent_ussage_name)
    }

    /// Every map of the entity has unique keys, and so on down.
    #[verifier::opaque]
    pub open spec fn spec_wf(x: VRMMeta) -> bool {
        &&& opt_wf::<AllowedUserName>(x.allowed_user_name)
        &&& opt_wf::<String>(x.author)
        &&& opt_wf::<UssageName>(x.commercial_ussage_name)
        &&& opt_wf::<String>(x.contact_information)
        &&& opt_wf::<LicenseName>(x.license_name)
        &&& opt_wf::<String>(x.other_license_url)
        &&& opt_wf::<String>(x.other_permission_url)
        &&& opt_wf::<String>(x.reference)
        &&& opt_wf::<UssageName>(x.sexual_ussage_name)
        &&& opt_wf::<String>(x.title)
        &&& opt_wf::<String>(x.version)
        &&& opt_wf::<UssageName>(x.violent_ussage_name)
    }
}

impl Codec for VRMMeta {
    open spec fn accepts(j: JsonView) -> bool {
        VRMMeta::spec_accepts(j)
    }

    open spec fn denotes(j: JsonView, x: VRMMeta) -> bool {
        VRMMeta::spec_denotes(j, x)
    }

    open spec fn wf(x: VRMMeta) -> bool {
        VRMMeta::spec_wf(x)
    }

    open spec fn encoding(x: VRMMeta) -> JsonView {
        JsonView::Object(
            opt_entry::<AllowedUserName>("allowedUserName"@, x.allowed_user_name)
            + opt_entry::<String>("author"@, x.author)
            + opt_entry::<UssageName>("commercialUssageName"@, x.commercial_ussage_name)
            + opt_entry::<String>("contactInformation"@, x.contact_information)
            + opt_entry::<LicenseName>("licenseName"@, x.license_name)
            + opt_entry::<String>("otherLicenseUrl"@, x.other_license_url)
            + opt_entry::<String>("otherPermissionUrl"@, x.other_permission_url)
            + opt_entry::<String>("reference"@, x.reference)
            + opt_entry::<UssageName>("sexualUssageName"@, x.sexual_ussage_name)
            + opt_entry::<u32>("texture"@, x.texture)
            + opt_entry::<String>("title"@, x.title)
            + opt_entry::<String>("version"@, x.version)
            + opt_entry::<UssageName>("violentUssageName"@, x.violent_ussage_name)
        )
    }

    #[verifier::rlimit(100)]
    #[verifier::spinoff_prover]
    proof fn lemma_round_trip(x: VRMMeta) {
        broadcast use group_lookup;

        reveal(VRMMeta::spec_accepts);
        reveal(VRMMeta::spec_denotes);
        reveal(VRMMeta::spec_wf);
        reveal_strlit("allowedUserName");
        reveal_strlit("author");
        reveal_strlit("commercialUssageName");
        reveal_strlit("contactInformation");
        reveal_strlit("licenseName");
        reveal_strlit("otherLicenseUrl");
        reveal_strlit("otherPermissionUrl");
        reveal_strlit("reference");
        reveal_strlit("sexualUssageName");
        reveal_strlit("texture");
        reveal_strlit("title");
        reveal_strlit("version");
        reveal_strlit("violentUssageName");
        assert("allowedUserName"@.len() == 15);
        assert("author"@.len() == 6);
        assert("commercialUssageName"@.len() == 20);
        assert("contactInformation"@.len() == 18);
        assert("licenseName"@.len() == 11);
        assert("otherLicenseUrl"@.len() == 15);
        assert("otherPermissionUrl"@.len() == 18);
        assert("reference"@.len() == 9);
        assert("sexualUssageName"@.len() == 16);
        assert("texture"@.len() == 7);
        assert("title"@.len() == 5);
        assert("version"@.len() == 7);
        assert("violentUssageName"@.len() == 17);
        assert("allowedUserName"@[0] != "otherLicenseUrl"@[0]);
        assert("contactInformation"@[0] != "otherPermissionUrl"@[0]);
        assert("texture"@[0] != "version"@[0]);
        let e = VRMMeta::encoding(x);
        assert(get(e, "allowedUserName"@) == opt_encoding(x.allowed_user_name));
        assert(get(e, "author"@) == opt_encoding(x.author));
        assert(get(e, "commercialUssageName"@) == opt_encoding(x.commercial_ussage_name));
        assert(get(e, "contactInformation"@) == opt_encoding(x.contact_information));
        assert(get(e, "licenseName"@) == opt_encoding(x.license_name));
        assert(get(e, "otherLicenseUrl"@) == opt_encoding(x.other_license_url));
        assert(get(e, "otherPermissionUrl"@) == opt_encoding(x.other_permission_url));
        assert(get(e, "reference"@) == opt_encoding(x.reference));
        assert(get(e, "sexualUssageName"@) == opt_encoding(x.sexual_ussage_name));
        assert(get(e, "texture"@) == opt_encoding(x.texture));
        assert(get(e, "title"@) == opt_encoding(x.title));
        assert(get(e, "version"@) == opt_encoding(x.version));
        assert(get(e, "violentUssageName"@) == opt_encoding(x.violent_ussage_name));
        lemma_opt_field::<AllowedUserName>(x.allowed_user_name);
        lemma_opt_field::<String>(x.author);
        lemma_opt_field::<UssageName>(x.commercial_ussage_name);
        lemma_opt_field::<String>(x.contact_information);
        lemma_opt_field::<LicenseName>(x.license_name);
        lemma_opt_field::<String>(x.other_license_url);
        lemma_opt_field::<String>(x.other_permission_url);
        lemma_opt_field::<String>(x.reference);
        lemma_opt_field::<UssageName>(x.sexual_ussage_name);
        lemma_index_field(x.texture);
        lemma_opt_field::<String>(x.title);
        lemma_opt_field::<String>(x.version);
        lemma_opt_field::<UssageName>(x.violent_ussage_name);
    }

    fn decode(j: &Json) -> (r: Result<VRMMeta, DecodeError>) {
        proof {
            reveal(VRMMeta::spec_accepts);
            reveal(VRMMeta::spec_denotes);
            reveal(VRMMeta::spec_wf);
        }
        if !j.is_object() {
            return Err(DecodeError);
        }
        let allowed_user_name = opt_field::<AllowedUserName>(j, "allowedUserName")?;
        let author = opt_field::<String>(j, "author")?;
        let commercial_ussage_name = opt_field::<UssageName>(j, "commercialUssageName")?;
        let contact_information = opt_field::<String>(j, "contactInformation")?;
        let license_name = opt_field::<LicenseName>(j, "licenseName")?;
        let other_license_url = opt_field::<String>(j, "otherLicenseUrl")?;
        let other_permission_url = opt_field::<String>(j, "otherPermissionUrl")?;
        let reference = opt_field::<String>(j, "reference")?;
        let sexual_ussage_name = opt_field::<UssageName>(j, "sexualUssageName")?;
        let texture = index_field(j, "texture")?;
        let title = opt_field::<String>(j, "title")?;
        let version = opt_field::<String>(j, "version")?;
        let violent_ussage_name = opt_field::<UssageName>(j, "violentUssageName")?;
        Ok(VRMMeta {
            allowed_user_name,
            author,
            commercial_ussage_name,
            contact_information,
            license_name,
            other_license_url,
            other_permission_url,
            reference,
            sexual_ussage_name,
            texture,
            title,
            version,
            violent_ussage_name,
        })
    }

    fn encode(&self) -> (j: Json) {
        let mut m: Vec<(String, Json)> = Vec::new();
        put_opt(&mut m, "allowedUserName", &self.allowed_user_name);
        assert(entries_view(m@) =~= opt_entry::<AllowedUserName>("allowedUserName"@, self.allowed_user_name));
        put_opt(&mut m, "author", &self.author);
        put_opt(&mut m, "commercialUssageName", &self.commercial_ussage_name);
        put_opt(&mut m, "contactInformation", &self.contact_information);
        put_opt(&mut m, "licenseName", &self.license_name);
        put_opt(&mut m, "otherLicenseUrl", &self.other_license_url);
        put_opt(&mut m, "otherPermissionUrl", &self.other_permission_url);
        put_opt(&mut m, "reference", &self.reference);
        put_opt(&mut m, "sexualUssageName", &self.sexual_ussage_name);
        put_opt(&mut m, "texture", &self.texture);
        put_opt(&mut m, "title", &self.title);
        put_opt(&mut m, "version", &self.version);
        put_opt(&mut m, "violentUssageName", &self.violent_ussage_name);
        Json::Object(m)
    }
}

/// Spring bones and their colliders.
#[derive(Clone, Debug)]
pub struct VRMSecondaryAnimation {
    pub bone_groups: Option<Vec<VRMSecondaryAnimationSpring>>,
    pub collider_groups: Option<Vec<VRMSecondaryAnimationColliderGroup>>,
}

impl VRMSecondaryAnimation {
    /// Decoding a JSON value as this entity succeeds.
    #[verifier::opaque]
    pub open spec fn spec_accepts(j: JsonView) -> bool {
        &&& j is Object
        &&& opt_ok::<Vec<VRMSecondaryAnimationSpring>>(get(j, "boneGroups"@))
        &&& opt_ok::<Vec<VRMSecondaryAnimationColliderGroup>>(get(j, "colliderGroups"@))
    }

    /// `x` is the entity that the JSON value `j` decodes to.
    #[verifier::opaque]
    pub open spec fn spec_denotes(j: JsonView, x: VRMSecondaryAnimation) -> bool {
        &&& opt_is::<Vec<VRMSecondaryAnimationSpring>>(get(j, "boneGroups"@), x.bone_groups)
        &&& opt_is::<Vec<VRMSecondaryAnimationColliderGroup>>(get(j, "colliderGroups"@), x.collider_groups)
    }

    /// Every map of the entity has unique keys, and so on down.
    #[verifier::opaque]
    pub open spec fn spec_wf(x: VRMSecondaryAnimation) -> bool {
        &&& opt_wf::<Vec<VRMSecondaryAnimationSpring>>(x.bone_groups)
        &&& opt_wf::<Vec<VRMSecondaryAnimationColliderGroup>>(x.collider_groups)
    }
}

impl Codec for VRMSecondaryAnimation {
    open spec fn accepts(j: JsonView) -> bool {
        VRMSecondaryAnimation::spec_accepts(j)
    }

    open spec fn denotes(j: JsonView, x: VRMSecondaryAnimation) -> bool {
        VRMSecondaryAnimation::spec_denotes(j, x)
    }

    open spec fn wf(x: VRMSecondaryAnimation) -> bool {
        VRMSecondaryAnimation::spec_wf(x)
    }

    open spec fn encoding(x: VRMSecondaryAnimation) -> JsonView {
        JsonView::Object(
            opt_entry::<Vec<VRMSecondaryAnimationSpring>>("boneGroups"@, x.bone_groups)
            + opt_entry::<Vec<VRMSecondaryAnimationColliderGroup>>("colliderGroups"@, x.collider_groups)
        )
    }

    proof fn lemma_round_trip(x: VRMSecondaryAnimation) {
        broadcast use group_lookup;

        reveal(VRMSecondaryAnimation::spec_accepts);
        reveal(VRMSecondaryAnimation::spec_denotes);
        reveal(VRMSecondaryAnimation::spec_wf);
        reveal_strlit("boneGroups");
        reveal_strlit("colliderGroups");
        assert("boneGroups"@.len() == 10);
        assert("colliderGroups"@.len() == 14);
        let e = VRMSecondaryAnimation::encoding(x);
        assert(get(e, "boneGroups"@) == opt_encoding(x.bone_groups));
        assert(get(e, "colliderGroups"@) == opt_encoding(x.collider_groups));
        lemma_opt_field::<Vec<VRMSecondaryAnimationSpring>>(x.bone_groups);
        lemma_opt_field::<Vec<VRMSecondaryAnimationColliderGroup>>(x.collider_groups);
    }

    fn decode(j: &Json) -> (r: Result<VRMSecondaryAnimation, DecodeError>) {
        proof {
            reveal(VRMSecondaryAnimation::spec_accepts);
            reveal(VRMSecondaryAnimation::spec_denotes);
            reveal(VRMSecondaryAnimation::spec_wf);
        }
        if !j.is_object() {
            return Err(DecodeError);
        }
        let bone_groups = opt_field::<Vec<VRMSecondaryAnimationSpring>>(j, "boneGroups")?;
        let collider_groups = opt_field::<Vec<VRMSecondaryAnimationColliderGroup>>(j, "colliderGroups")?;
        Ok(VRMSecondaryAnimation {
            bone_groups,
            collider_groups,
        })
    }

    fn encode(&self) -> (j: Json) {
        let mut m: Vec<(String, Json)> = Vec::new();
        put_opt(&mut m, "boneGroups", &self.bone_groups);
        assert(entries_view(m@) =~= opt_entry::<Vec<VRMSecondaryAnimationSpring>>("boneGroups"@, self.bone_groups));
        put_opt(&mut m, "colliderGroups", &self.collider_groups);
        Json::Object(m)
    }
}

/// A group of spring bones.
#[derive(Clone, Debug)]
pub struct VRMSecondaryAnimationSpring {
    /// Indices of the root nodes of the bone chains.
    pub bones: Option<Vec<i64>>,
    /// The index of the node used as the root of the center space.
    pub center: Option<u32>,
    pub collider_groups: Option<Vec<i64>>,
    pub comment: Option<String>,
    pub drag_force: Option<Number>,
    pub gravity_dir: Option<GravityDir>,
    pub gravity_power: Option<Number>,
    pub hit_radius: Option<Number>,
    pub stiffiness: Option<Number>,
}

impl VRMSecondaryAnimationSpring {
    /// Decoding a JSON value as this entity succeeds.
    #[verifier::opaque]
    pub open spec fn spec_accepts(j: JsonView) -> bool {
        &&& j is Object
        &&& opt_ok::<Vec<i64>>(get(j, "bones"@))
        &&& index_field_ok(get(j, "center"@))
        &&& opt_ok::<Vec<i64>>(get(j, "colliderGroups"@))
        &&& opt_ok::<String>(get(j, "comment"@))
        &&& opt_ok::<Number>(get(j, "dragForce"@))
        &&& opt_ok::<GravityDir>(get(j, "gravityDir"@))
        &&& opt_ok::<Number>(get(j, "gravityPower"@))
        &&& opt_ok::<Number>(get(j, "hitRadius"@))
        &&& opt_ok::<Number>(get(j, "stiffiness"@))
    }

    /// `x` is the entity that the JSON value `j` decodes to.
    #[verifier::opaque]
    pub open spec fn spec_denotes(j: JsonView, x: VRMSecondaryAnimationSpring) -> bool {
        &&& opt_is::<Vec<i64>>(get(j, "bones"@), x.bones)
        &&& index_field_is(get(j, "center"@), x.center)
        &&& opt_is::<Vec<i64>>(get(j, "colliderGroups"@), x.collider_groups)
        &&& opt_is::<String>(get(j, "comment"@), x.comment)
        &&& opt_is::<Number>(get(j, "dragForce"@), x.drag_force)
        &&& opt_is::<GravityDir>(get(j, "gravityDir"@), x.gravity_dir)
        &&& opt_is::<Number>(get(j, "gravityPower"@), x.gravity_power)
        &&& opt_is::<Number>(get(j, "hitRadius"@), x.hit_radius)
        &&& opt_is::<Number>(get(j, "stiffiness"@), x.stiffiness)
    }

    /// Every map of the entity has unique keys, and so on down.
    #[verifier::opaque]
    pub open spec fn spec_wf(x: VRMSecondaryAnimationSpring) -> bool {
        &&& opt_wf::<Vec<i64>>(x.bones)
        &&& opt_wf::<Vec<i64>>(x.collider_groups)
        &&& opt_wf::<String>(x.comment)
        &&& opt_wf::<Number>(x.drag_force)
        &&& opt_wf::<GravityDir>(x.gravity_dir)
        &&& opt_wf::<Number>(x.gravity_power)
        &&& opt_wf::<Number>(x.hit_radius)
        &&& opt_wf::<Number>(x.stiffiness)
    }
}

impl Codec for VRMSecondaryAnimationSpring {
    open spec fn accepts(j: JsonView) -> bool {
        VRMSecondaryAnimationSpring::spec_accepts(j)
    }

    open spec fn denotes(j: JsonView, x: VRMSecondaryAnimationSpring) -> bool {
        VRMSecondaryAnimationSpring::spec_denotes(j, x)
    }

    open spec fn wf(x: VRMSecondaryAnimationSpring) -> bool {
        VRMSecondaryAnimationSpring::spec_wf(x)
    }

    open spec fn encoding(x: VRMSecondaryAnimationSpring) -> JsonView {
        JsonView::Object(
            opt_entry::<Vec<i64>>("bones"@, x.bones)
            + opt_entry::<u32>("center"@, x.center)
            + opt_entry::<Vec<i64>>("colliderGroups"@, x.collider_groups)
            + opt_entry::<String>("comment"@, x.comment)
            + opt_entry::<Number>("dragForce"@, x.drag_force)
            + opt_entry::<GravityDir>("gravityDir"@, x.gravity_dir)
            + opt_entry::<Number>("gravityPower"@, x.gravity_power)
            + opt_entry::<Number>("hitRadius"@, x.hit_radius)
            + opt_entry::<Number>("stiffiness"@, x.stiffiness)
        )
    }

    proof fn lemma_round_trip(x: VRMSecondaryAnimationSpring) {
        broadcast use group_lookup;

        reveal(VRMSecondaryAnimationSpring::spec_accepts);
        reveal(VRMSecondaryAnimationSpring::spec_denotes);
        reveal(VRMSecondaryAnimationSpring::spec_wf);
        reveal_strlit("bones");
        reveal_strlit("center");
        reveal_strlit("colliderGroups");
        reveal_strlit("comment");
        reveal_strlit("dragForce");
        reveal_strlit("gravityDir");
        reveal_strlit("gravityPower");
        reveal_strlit("hitRadius");
        reveal_strlit("stiffiness");
        assert("bones"@.len() == 5);
        assert("center"@.len() == 6);
        assert("colliderGroups"@.len() == 14);
        assert("comment"@.len() == 7);
        assert("dragForce"@.len() == 9);
        assert("gravityDir"@.len() == 10);
        assert("gravityPower"@.len() == 12);
        assert("hitRadius"@.len() == 9);
        assert("stiffiness"@.len() == 10);
        assert("dragForce"@[0] != "hitRadius"@[0]);
        assert("gravityDir"@[0] != "stiffiness"@[0]);
        let e = VRMSecondaryAnimationSpring::encoding(x);
        assert(get(e, "bones"@) == opt_encoding(x.bones));
        assert(get(e, "center"@) == opt_encoding(x.center));
        assert(get(e, "colliderGroups"@) == opt_encoding(x.collider_groups));
        assert(get(e, "comment"@) == opt_encoding(x.comment));
        assert(get(e, "dragForce"@) == opt_encoding(x.drag_force));
        assert(get(e, "gravityDir"@) == opt_encoding(x.gravity_dir));
        assert(get(e, "gravityPower"@) == opt_encoding(x.gravity_power));
        assert(get(e, "hitRadius"@) == opt_encoding(x.hit_radius));
        assert(get(e, "stiffiness"@) == opt_encoding(x.stiffiness));
        lemma_opt_field::<Vec<i64>>(x.bones);
        lemma_index_field(x.center);
        lemma_opt_field::<Vec<i64>>(x.collider_groups);
        lemma_opt_field::<String>(x.comment);
        lemma_opt_field::<Number>(x.drag_force);
        lemma_opt_field::<GravityDir>(x.gravity_dir);
        lemma_opt_field::<Number>(x.gravity_power);
        lemma_opt_field::<Number>(x.hit_radius);
        lemma_opt_field::<Number>(x.stiffiness);
    }

    fn decode(j: &Json) -> (r: Result<VRMSecondaryAnimationSpring, DecodeError>) {
        proof {
            reveal(VRMSecondaryAnimationSpring::spec_accepts);
            reveal(VRMSecondaryAnimationSpring::spec_denotes);
            reveal(VRMSecondaryAnimationSpring::spec_wf);
        }
        if !j.is_object() {
            return Err(DecodeError);
        }
        let bones = opt_field::<Vec<i64>>(j, "bones")?;
        let center = index_field(j, "center")?;
        let collider_groups = opt_field::<Vec<i64>>(j, "colliderGroups")?;
        let comment = opt_field::<String>(j, "comment")?;
        let drag_force = opt_field::<Number>(j, "dragForce")?;
        let gravity_dir = opt_field::<GravityDir>(j, "gravityDir")?;
        let gravity_power = opt_field::<Number>(j, "gravityPower")?;
        let hit_radius = opt_field::<Number>(j, "hitRadius")?;
        let stiffiness = opt_field::<Number>(j, "stiffiness")?;
        Ok(VRMSecondaryAnimationSpring {
            bones,
            center,
            collider_groups,
            comment,
            drag_force,
            gravity_dir,
            gravity_power,
            hit_radius,
            stiffiness,
        })
    }

    fn encode(&self) -> (j: Json) {
        let mut m: Vec<(String, Json)> = Vec::new();
        put_opt(&mut m, "bones", &self.bones);
        assert(entries_view(m@) =~= opt_entry::<Vec<i64>>("bones"@, self.bones));
        put_opt(&mut m, "center", &self.center);
        put_opt(&mut m, "colliderGroups", &self.collider_groups);
        put_opt(&mut m, "comment", &self.comment);
        put_opt(&mut m, "dragForce", &self.drag_force);
        put_opt(&mut m, "gravityDir", &self.gravity_dir);
        put_opt(&mut m, "gravityPower", &self.gravity_power);
        put_opt(&mut m, "hitRadius", &self.hit_radius);
        put_opt(&mut m, "stiffiness", &self.stiffiness);
        Json::Object(m)
    }
}

/// A group of sphere colliders attached to one node.
#[derive(Clone, Debug)]
pub struct VRMSecondaryAnimationColliderGroup {
    pub colliders: Option<Vec<Collider>>,
    /// The index of the node.
    pub node: Option<u32>,
}

impl VRMSecondaryAnimationColliderGroup {
    /// Decoding a JSON value as this entity succeeds.
    #[verifier::opaque]
    pub open spec fn spec_accepts(j: JsonView) -> bool {
        &&& j is Object
        &&& opt_ok::<Vec<Collider>>(get(j, "colliders"@))
        &&& index_field_ok(get(j, "node"@))
    }

    /// `x` is the entity that the JSON value `j` decodes to.
    #[verifier::opaque]
    pub open spec fn spec_denotes(j: JsonView, x: VRMSecondaryAnimationColliderGroup) -> bool {
        &&& opt_is::<Vec<Collider>>(get(j, "colliders"@), x.colliders)
        &&& index_field_is(get(j, "node"@), x.node)
    }

    /// Every map of the entity has unique keys, and so on down.
    #[verifier::opaque]
    pub open spec fn spec_wf(x: VRMSecondaryAnimationColliderGroup) -> bool {
        &&& opt_wf::<Vec<Collider>>(x.colliders)
    }
}

impl Codec for VRMSecondaryAnimationColliderGroup {
    open spec fn accepts(j: JsonView) -> bool {
        VRMSecondaryAnimationColliderGroup::spec_accepts(j)
    }

    open spec fn denotes(j: JsonView, x: VRMSecondaryAnimationColliderGroup) -> bool {
        VRMSecondaryAnimationColliderGroup::spec_denotes(j, x)
    }

    open spec fn wf(x: VRMSecondaryAnimationColliderGroup) -> bool {
        VRMSecondaryAnimationColliderGroup::spec_wf(x)
    }

    open spec fn encoding(x: VRMSecondaryAnimationColliderGroup) -> JsonView {
        JsonView::Object(
            opt_entry::<Vec<Collider>>("colliders"@, x.colliders)
            + opt_entry::<u32>("node"@, x.node)
        )
    }

    proof fn lemma_round_trip(x: VRMSecondaryAnimationColliderGroup) {
        broadcast use group_lookup;

        reveal(VRMSecondaryAnimationColliderGroup::spec_accepts);
        reveal(VRMSecondaryAnimationColliderGroup::spec_denotes);
        reveal(VRMSecondaryAnimationColliderGroup::spec_wf);
        reveal_strlit("colliders");
        reveal_strlit("node");
        assert("colliders"@.len() == 9);
        assert("node"@.len() == 4);
        let e = VRMSecondaryAnimationColliderGroup::encoding(x);
        assert(get(e, "colliders"@) == opt_encoding(x.colliders));
        assert(get(e, "node"@) == opt_encoding(x.node));
        lemma_opt_field::<Vec<Collider>>(x.colliders);
        lemma_index_field(x.node);
    }

    fn decode(j: &Json) -> (r: Result<VRMSecondaryAnimationColliderGroup, DecodeError>) {
        proof {
            reveal(VRMSecondaryAnimationColliderGroup::spec_accepts);
            reveal(VRMSecondaryAnimationColliderGroup::spec_denotes);
            reveal(VRMSecondaryAnimationColliderGroup::spec_wf);
        }
        if !j.is_object() {
            return Err(DecodeError);
        }
        let colliders = opt_field::<Vec<Collider>>(j, "colliders")?;
        let node = index_field(j, "node")?;
        Ok(VRMSecondaryAnimationColliderGroup {
            colliders,
            node,
        })
    }

    fn encode(&self) -> (j: Json) {
        let mut m: Vec<(String, Json)> = Vec::new();
        put_opt(&mut m, "colliders", &self.colliders);
        assert(entries_view(m@) =~= opt_entry::<Vec<Collider>>("colliders"@, self.colliders));
        put_opt(&mut m, "node", &self.node);
        Json::Object(m)
    }
}

/// A sphere collider.
#[derive(Clone, Debug)]
pub struct Collider {
    pub offset: Option<Offset>,
    pub radius: Option<Number>,
}

impl Collider {
    /// Decoding a JSON value as this entity succeeds.
    #[verifier::opaque]
    pub open spec fn spec_accepts(j: JsonView) -> bool {
        &&& j is Object
        &&& opt_ok::<Offset>(get(j, "offset"@))
        &&& opt_ok::<Number>(get(j, "radius"@))
    }

    /// `x` is the entity that the JSON value `j` decodes to.
    #[verifier::opaque]
    pub open spec fn spec_denotes(j: JsonView, x: Collider) -> bool {
        &&& opt_is::<Offset>(get(j, "offset"@), x.offset)
        &&& opt_is::<Number>(get(j, "radius"@), x.radius)
    }

    /// Every map of the entity has unique keys, and so on down.
    #[verifier::opaque]
    pub open spec fn spec_wf(x: Collider) -> bool {
        &&& opt_wf::<Offset>(x.offset)
        &&& opt_wf::<Number>(x.radius)
    }
}

impl Codec for Collider {
    open spec fn accepts(j: JsonView) -> bool {
        Collider::spec_accepts(j)
    }

    open spec fn denotes(j: JsonView, x: Collider) -> bool {
        Collider::spec_denotes(j, x)
    }

    open spec fn wf(x: Collider) -> bool {
        Collider::spec_wf(x)
    }

    open spec fn encoding(x: Collider) -> JsonView {
        JsonView::Object(
            opt_entry::<Offset>("offset"@, x.offset)
            + opt_entry::<Number>("radius"@, x.radius)
        )
    }

    proof fn lemma_round_trip(x: Collider) {
        broadcast use group_lookup;

        reveal(Collider::spec_accepts);
        reveal(Collider::spec_denotes);
        reveal(Collider::spec_wf);
        reveal_strlit("offset");
        reveal_strlit("radius");
        assert("offset"@.len() == 6);
        assert("radius"@.len() == 6);
        assert("offset"@[0] != "radius"@[0]);
        let e = Collider::encoding(x);
        assert(get(e, "offset"@) == opt_encoding(x.offset));
        assert(get(e, "radius"@) == opt_encoding(x.radius));
        lemma_opt_field::<Offset>(x.offset);
        lemma_opt_field::<Number>(x.radius);
    }

    fn decode(j: &Json) -> (r: Result<Collider, DecodeError>) {
        proof {
            reveal(Collider::spec_accepts);
            reveal(Collider::spec_denotes);
            reveal(Collider::spec_wf);
        }
        if !j.is_object() {
            return Err(DecodeError);
        }
        let offset = opt_field::<Offset>(j, "offset")?;
        let radius = opt_field::<Number>(j, "radius")?;
        Ok(Collider {
            offset,
            radius,
        })
    }

    fn encode(&self) -> (j: Json) {
        let mut m: Vec<(String, Json)> = Vec::new();
        put_opt(&mut m, "offset", &self.offset);
        assert(entries_view(m@) =~= opt_entry::<Offset>("offset"@, self.offset));
        put_opt(&mut m, "radius", &self.radius);
        Json::Object(m)
    }
}

/// The preset that an expression stands for; `unknown` is one of them.
#[derive(Clone, Copy, Debug, PartialEq, Eq, Hash, Structural)]
pub enum PresetName {
    A,
    Angry,
    Blink,
    BlinkL,
    BlinkR,
    E,
    Fun,
    I,
    Joy,
    Lookdown,
    Lookleft,
    Lookright,
    Lookup,
    Neutral,
    O,
    Sorrow,
    U,
    Unknown,
}

impl Name for PresetName {
    open spec fn name(self) -> Seq<char> {
        match self {
            PresetName::A => "a"@,
            PresetName::Angry => "angry"@,
            PresetName::Blink => "blink"@,
            PresetName::BlinkL => "blink_l"@,
            PresetName::BlinkR => "blink_r"@,
            PresetName::E => "e"@,
            PresetName::Fun => "fun"@,
            PresetName::I => "i"@,
            PresetName::Joy => "joy"@,
            PresetName::Lookdown => "lookdown"@,
            PresetName::Lookleft => "lookleft"@,
            PresetName::Lookright => "lookright"@,
            PresetName::Lookup => "lookup"@,
            PresetName::Neutral => "neutral"@,
            PresetName::O => "o"@,
            PresetName::Sorrow => "sorrow"@,
            PresetName::U => "u"@,
            PresetName::Unknown => "unknown"@,
        }
    }

    open spec fn is_name(s: Seq<char>) -> bool {
        s == "a"@
        || s == "angry"@
        || s == "blink"@
        || s == "blink_l"@
        || s == "blink_r"@
        || s == "e"@
        || s == "fun"@
        || s == "i"@
        || s == "joy"@
        || s == "lookdown"@
        || s == "lookleft"@
        || s == "lookright"@
        || s == "lookup"@
        || s == "neutral"@
        || s == "o"@
        || s == "sorrow"@
        || s == "u"@
        || s == "unknown"@
    }

    proof fn lemma_name_is_name(x: PresetName) {
    }

    fn from_name(s: &String) -> (r: Option<PresetName>) {
        if eq_str(s, "a") {
            Some(PresetName::A)
        } else if eq_str(s, "angry") {
            Some(PresetName::Angry)
        } else if eq_str(s, "blink") {
            Some(PresetName::Blink)
        } else if eq_str(s, "blink_l") {
            Some(PresetName::BlinkL)
        } else if eq_str(s, "blink_r") {
            Some(PresetName::BlinkR)
        } else if eq_str(s, "e") {
            Some(PresetName::E)
        } else if eq_str(s, "fun") {
            Some(PresetName::Fun)
        } else if eq_str(s, "i") {
            Some(PresetName::I)
        } else if eq_str(s, "joy") {
            Some(PresetName::Joy)
        } else if eq_str(s, "lookdown") {
            Some(PresetName::Lookdown)
        } else if eq_str(s, "lookleft") {
            Some(PresetName::Lookleft)
        } else if eq_str(s, "lookright") {
            Some(PresetName::Lookright)
        } else if eq_str(s, "lookup") {
            Some(PresetName::Lookup)
        } else if eq_str(s, "neutral") {
            Some(PresetName::Neutral)
        } else if eq_str(s, "o") {
            Some(PresetName::O)
        } else if eq_str(s, "sorrow") {
            Some(PresetName::Sorrow)
        } else if eq_str(s, "u") {
            Some(PresetName::U)
        } else if eq_str(s, "unknown") {
            Some(PresetName::Unknown)
        } else {
            None
        }
    }

    fn to_name(&self) -> (r: String) {
        match self {
            PresetName::A => "a".to_owned(),
            PresetName::Angry => "angry".to_owned(),
            PresetName::Blink => "blink".to_owned(),
            PresetName::BlinkL => "blink_l".to_owned(),
            PresetName::BlinkR => "blink_r".to_owned(),
            PresetName::E => "e".to_owned(),
            PresetName::Fun => "fun".to_owned(),
            PresetName::I => "i".to_owned(),
            PresetName::Joy => "joy".to_owned(),
            PresetName::Lookdown => "lookdown".to_owned(),
            PresetName::Lookleft => "lookleft".to_owned(),
            PresetName::Lookright => "lookright".to_owned(),
            PresetName::Lookup => "lookup".to_owned(),
            PresetName::Neutral => "neutral".to_owned(),
            PresetName::O => "o".to_owned(),
            PresetName::Sorrow => "sorrow".to_owned(),
            PresetName::U => "u".to_owned(),
            PresetName::Unknown => "unknown".to_owned(),
        }
    }
}

impl Codec for PresetName {
    open spec fn accepts(j: JsonView) -> bool {
        j matches JsonView::String(s) && PresetName::is_name(s)
    }

    open spec fn denotes(j: JsonView, x: PresetName) -> bool {
        j == JsonView::String(x.name())
    }

    open spec fn encoding(x: PresetName) -> JsonView {
        JsonView::String(x.name())
    }

    open spec fn wf(x: PresetName) -> bool {
        true
    }

    proof fn lemma_round_trip(x: PresetName) {
        PresetName::lemma_name_is_name(x);
    }

    fn decode(j: &Json) -> (r: Result<PresetName, DecodeError>) {
        match j {
            Json::String(s) => match PresetName::from_name(s) {
                Some(x) => Ok(x),
                None => Err(DecodeError),
            },
            _ => Err(DecodeError),
        }
    }

    fn encode(&self) -> (j: Json) {
        Json::String(self.to_name())
    }
}

/// Whether look-at turns bones or weights blend shapes.
#[derive(Clone, Copy, Debug, PartialEq, Eq, Hash, Structural)]
pub enum LookAtTypeName {
    BlendShape,
    Bone,
}

impl Name for LookAtTypeName {
    open spec fn name(self) -> Seq<char> {
        match self {
            LookAtTypeName::BlendShape => "BlendShape"@,
            LookAtTypeName::Bone => "Bone"@,
        }
    }

    open spec fn is_name(s: Seq<char>) -> bool {
        s == "BlendShape"@
        || s == "Bone"@
    }

    proof fn lemma_name_is_name(x: LookAtTypeName) {
    }

    fn from_name(s: &String) -> (r: Option<LookAtTypeName>) {
        if eq_str(s, "BlendShape") {
            Some(LookAtTypeName::BlendShape)
        } else if eq_str(s, "Bone") {
            Some(LookAtTypeName::Bone)
        } else {
            None
        }
    }

    fn to_name(&self) -> (r: String) {
        match self {
            LookAtTypeName::BlendShape => "BlendShape".to_owned(),
            LookAtTypeName::Bone => "Bone".to_owned(),
        }
    }
}

impl Codec for LookAtTypeName {
    open spec fn accepts(j: JsonView) -> bool {
        j matches JsonView::String(s) && LookAtTypeName::is_name(s)
    }

    open spec fn denotes(j: JsonView, x: LookAtTypeName) -> bool {
        j == JsonView::String(x.name())
    }

    open spec fn encoding(x: LookAtTypeName) -> JsonView {
        JsonView::String(x.name())
    }

    open spec fn wf(x: LookAtTypeName) -> bool {
        true
    }

    proof fn lemma_round_trip(x: LookAtTypeName) {
        LookAtTypeName::lemma_name_is_name(x);
    }

    fn decode(j: &Json) -> (r: Result<LookAtTypeName, DecodeError>) {
        match j {
            Json::String(s) => match LookAtTypeName::from_name(s) {
                Some(x) => Ok(x),
                None => Err(DecodeError),
            },
            _ => Err(DecodeError),
        }
    }

    fn encode(&self) -> (j: Json) {
        Json::String(self.to_name())
    }
}

/// The bones of the humanoid skeleton.
#[derive(Clone, Copy, Debug, PartialEq, Eq, Hash, Structural)]
pub enum Bone {
    Chest,
    Head,
    Hips,
    Jaw,
    LeftEye,
    LeftFoot,
    LeftHand,
    LeftIndexDistal,
    LeftIndexIntermediate,
    LeftIndexProximal,
    LeftLittleDistal,
    LeftLittleIntermediate,
    LeftLittleProximal,
    LeftLowerArm,
    LeftLowerLeg,
    LeftMiddleDistal,
    LeftMiddleIntermediate,
    LeftMiddleProximal,
    LeftRingDistal,
    LeftRingIntermediate,
    LeftRingProximal,
    LeftShoulder,
    LeftThumbDistal,
    LeftThumbIntermediate,
    LeftThumbProximal,
    LeftToes,
    LeftUpperArm,
    LeftUpperLeg,
    Neck,
    RightEye,
    RightFoot,
    RightHand,
    RightIndexDistal,
    RightIndexIntermediate,
    RightIndexProximal,
    RightLittleDistal,
    RightLittleIntermediate,
    RightLittleProximal,
    RightLowerArm,
    RightLowerLeg,
    RightMiddleDistal,
    RightMiddleIntermediate,
    RightMiddleProximal,
    RightRingDistal,
    RightRingIntermediate,
    RightRingProximal,
    RightShoulder,
    RightThumbDistal,
    RightThumbIntermediate,
    RightThumbProximal,
    RightToes,
    RightUpperArm,
    RightUpperLeg,
    Spine,
    UpperChest,
}

impl Name for Bone {
    open spec fn name(self) -> Seq<char> {
        match self {
            Bone::Chest => "chest"@,
            Bone::Head => "head"@,
            Bone::Hips => "hips"@,
            Bone::Jaw => "jaw"@,
            Bone::LeftEye => "leftEye"@,
            Bone::LeftFoot => "leftFoot"@,
            Bone::LeftHand => "leftHand"@,
            Bone::LeftIndexDistal => "leftIndexDistal"@,
            Bone::LeftIndexIntermediate => "leftIndexIntermediate"@,
            Bone::LeftIndexProximal => "leftIndexProximal"@,
            Bone::LeftLittleDistal => "leftLittleDistal"@,
            Bone::LeftLittleIntermediate => "leftLittleIntermediate"@,
            Bone::LeftLittleProximal => "leftLittleProximal"@,
            Bone::LeftLowerArm => "leftLowerArm"@,
            Bone::LeftLowerLeg => "leftLowerLeg"@,
            Bone::LeftMiddleDistal => "leftMiddleDistal"@,
            Bone::LeftMiddleIntermediate => "leftMiddleIntermediate"@,
            Bone::LeftMiddleProximal => "leftMiddleProximal"@,
            Bone::LeftRingDistal => "leftRingDistal"@,
            Bone::LeftRingIntermediate => "leftRingIntermediate"@,
            Bone::LeftRingProximal => "leftRingProximal"@,
            Bone::LeftShoulder => "leftShoulder"@,
            Bone::LeftThumbDistal => "leftThumbDistal"@,
            Bone::LeftThumbIntermediate => "leftThumbIntermediate"@,
            Bone::LeftThumbProximal => "leftThumbProximal"@,
            Bone::LeftToes => "leftToes"@,
            Bone::LeftUpperArm => "leftUpperArm"@,
            Bone::LeftUpperLeg => "leftUpperLeg"@,
            Bone::Neck => "neck"@,
            Bone::RightEye => "rightEye"@,
            Bone::RightFoot => "rightFoot"@,
            Bone::RightHand => "rightHand"@,
            Bone::RightIndexDistal => "rightIndexDistal"@,
            Bone::RightIndexIntermediate => "rightIndexIntermediate"@,
            Bone::RightIndexProximal => "rightIndexProximal"@,
            Bone::RightLittleDistal => "rightLittleDistal"@,
            Bone::RightLittleIntermediate => "rightLittleIntermediate"@,
            Bone::RightLittleProximal => "rightLittleProximal"@,
            Bone::RightLowerArm => "rightLowerArm"@,
            Bone::RightLowerLeg => "rightLowerLeg"@,
            Bone::RightMiddleDistal => "rightMiddleDistal"@,
            Bone::RightMiddleIntermediate => "rightMiddleIntermediate"@,
            Bone::RightMiddleProximal => "rightMiddleProximal"@,
            Bone::RightRingDistal => "rightRingDistal"@,
            Bone::RightRingIntermediate => "rightRingIntermediate"@,
            Bone::RightRingProximal => "rightRingProximal"@,
            Bone::RightShoulder => "rightShoulder"@,
            Bone::RightThumbDistal => "rightThumbDistal"@,
            Bone::RightThumbIntermediate => "rightThumbIntermediate"@,
            Bone::RightThumbProximal => "rightThumbProximal"@,
            Bone::RightToes => "rightToes"@,
            Bone::RightUpperArm => "rightUpperArm"@,
            Bone::RightUpperLeg => "rightUpperLeg"@,
            Bone::Spine => "spine"@,
            Bone::UpperChest => "upperChest"@,
        }
    }

    open spec fn is_name(s: Seq<char>) -> bool {
        s == "chest"@
        || s == "head"@
        || s == "hips"@
        || s == "jaw"@
        || s == "leftEye"@
        || s == "leftFoot"@
        || s == "leftHand"@
        || s == "leftIndexDistal"@
        || s == "leftIndexIntermediate"@
        || s == "leftIndexProximal"@
        || s == "leftLittleDistal"@
        || s == "leftLittleIntermediate"@
        || s == "leftLittleProximal"@
        || s == "leftLowerArm"@
        || s == "leftLowerLeg"@
        || s == "leftMiddleDistal"@
        || s == "leftMiddleIntermediate"@
        || s == "leftMiddleProximal"@
        || s == "leftRingDistal"@
        || s == "leftRingIntermediate"@
        || s == "leftRingProximal"@
        || s == "leftShoulder"@
        || s == "leftThumbDistal"@
        || s == "leftThumbIntermediate"@
        || s == "leftThumbProximal"@
        || s == "leftToes"@
        || s == "leftUpperArm"@
        || s == "leftUpperLeg"@
        || s == "neck"@
        || s == "rightEye"@
        || s == "rightFoot"@
        || s == "rightHand"@
        || s == "rightIndexDistal"@
        || s == "rightIndexIntermediate"@
        || s == "rightIndexProximal"@
        || s == "rightLittleDistal"@
        || s == "rightLittleIntermediate"@
        || s == "rightLittleProximal"@
        || s == "rightLowerArm"@
        || s == "rightLowerLeg"@
        || s == "rightMiddleDistal"@
        || s == "rightMiddleIntermediate"@
        || s == "rightMiddleProximal"@
        || s == "rightRingDistal"@
        || s == "rightRingIntermediate"@
        || s == "rightRingProximal"@
        || s == "rightShoulder"@
        || s == "rightThumbDistal"@
        || s == "rightThumbIntermediate"@
        || s == "rightThumbProximal"@
        || s == "rightToes"@
        || s == "rightUpperArm"@
        || s == "rightUpperLeg"@
        || s == "spine"@
        || s == "upperChest"@
    }

    proof fn lemma_name_is_name(x: Bone) {
    }

    fn from_name(s: &String) -> (r: Option<Bone>) {
        if eq_str(s, "chest") {
            Some(Bone::Chest)
        } else if eq_str(s, "head") {
            Some(Bone::Head)
        } else if eq_str(s, "hips") {
            Some(Bone::Hips)
        } else if eq_str(s, "jaw") {
            Some(Bone::Jaw)
        } else if eq_str(s, "leftEye") {
            Some(Bone::LeftEye)
        } else if eq_str(s, "leftFoot") {
            Some(Bone::LeftFoot)
        } else if eq_str(s, "leftHand") {
            Some(Bone::LeftHand)
        } else if eq_str(s, "leftIndexDistal") {
            Some(Bone::LeftIndexDistal)
        } else if eq_str(s, "leftIndexIntermediate") {
            Some(Bone::LeftIndexIntermediate)
        } else if eq_str(s, "leftIndexProximal") {
            Some(Bone::LeftIndexProximal)
        } else if eq_str(s, "leftLittleDistal") {
            Some(Bone::LeftLittleDistal)
        } else if eq_str(s, "leftLittleIntermediate") {
            Some(Bone::LeftLittleIntermediate)
        } else if eq_str(s, "leftLittleProximal") {
            Some(Bone::LeftLittleProximal)
        } else if eq_str(s, "leftLowerArm") {
            Some(Bone::LeftLowerArm)
        } else if eq_str(s, "leftLowerLeg") {
            Some(Bone::LeftLowerLeg)
        } else if eq_str(s, "leftMiddleDistal") {
            Some(Bone::LeftMiddleDistal)
        } else if eq_str(s, "leftMiddleIntermediate") {
            Some(Bone::LeftMiddleIntermediate)
        } else if eq_str(s, "leftMiddleProximal") {
            Some(Bone::LeftMiddleProximal)
        } else if eq_str(s, "leftRingDistal") {
            Some(Bone::LeftRingDistal)
        } else if eq_str(s, "leftRingIntermediate") {
            Some(Bone::LeftRingIntermediate)
        } else if eq_str(s, "leftRingProximal") {
            Some(Bone::LeftRingProximal)
        } else if eq_str(s, "leftShoulder") {
            Some(Bone::LeftShoulder)
        } else if eq_str(s, "leftThumbDistal") {
            Some(Bone::LeftThumbDistal)
        } else if eq_str(s, "leftThumbIntermediate") {
            Some(Bone::LeftThumbIntermediate)
        } else if eq_str(s, "leftThumbProximal") {
            Some(Bone::LeftThumbProximal)
        } else if eq_str(s, "leftToes") {
            Some(Bone::LeftToes)
        } else if eq_str(s, "leftUpperArm") {
            Some(Bone::LeftUpperArm)
        } else if eq_str(s, "leftUpperLeg") {
            Some(Bone::LeftUpperLeg)
        } else if eq_str(s, "neck") {
            Some(Bone::Neck)
        } else if eq_str(s, "rightEye") {
            Some(Bone::RightEye)
        } else if eq_str(s, "rightFoot") {
            Some(Bone::RightFoot)
        } else if eq_str(s, "rightHand") {
            Some(Bone::RightHand)
        } else if eq_str(s, "rightIndexDistal") {
            Some(Bone::RightIndexDistal)
        } else if eq_str(s, "rightIndexIntermediate") {
            Some(Bone::RightIndexIntermediate)
        } else if eq_str(s, "rightIndexProximal") {
            Some(Bone::RightIndexProximal)
        } else if eq_str(s, "rightLittleDistal") {
            Some(Bone::RightLittleDistal)
        } else if eq_str(s, "rightLittleIntermediate") {
            Some(Bone::RightLittleIntermediate)
        } else if eq_str(s, "rightLittleProximal") {
            Some(Bone::RightLittleProximal)
        } else if eq_str(s, "rightLowerArm") {
            Some(Bone::RightLowerArm)
        } else if eq_str(s, "rightLowerLeg") {
            Some(Bone::RightLowerLeg)
        } else if eq_str(s, "rightMiddleDistal") {
            Some(Bone::RightMiddleDistal)
        } else if eq_str(s, "rightMiddleIntermediate") {
            Some(Bone::RightMiddleIntermediate)
        } else if eq_str(s, "rightMiddleProximal") {
            Some(Bone::RightMiddleProximal)
        } else if eq_str(s, "rightRingDistal") {
            Some(Bone::RightRingDistal)
        } else if eq_str(s, "rightRingIntermediate") {
            Some(Bone::RightRingIntermediate)
        } else if eq_str(s, "rightRingProximal") {
            Some(Bone::RightRingProximal)
        } else if eq_str(s, "rightShoulder") {
            Some(Bone::RightShoulder)
        } else if eq_str(s, "rightThumbDistal") {
            Some(Bone::RightThumbDistal)
        } else if eq_str(s, "rightThumbIntermediate") {
            Some(Bone::RightThumbIntermediate)
        } else if eq_str(s, "rightThumbProximal") {
            Some(Bone::RightThumbProximal)
        } else if eq_str(s, "rightToes") {
            Some(Bone::RightToes)
        } else if eq_str(s, "rightUpperArm") {
            Some(Bone::RightUpperArm)
        } else if eq_str(s, "rightUpperLeg") {
            Some(Bone::RightUpperLeg)
        } else if eq_str(s, "spine") {
            Some(Bone::Spine)
        } else if eq_str(s, "upperChest") {
            Some(Bone::UpperChest)
        } else {
            None
        }
    }

    fn to_name(&self) -> (r: String) {
        match self {
            Bone::Chest => "chest".to_owned(),
            Bone::Head => "head".to_owned(),
            Bone::Hips => "hips".to_owned(),
            Bone::Jaw => "jaw".to_owned(),
            Bone::LeftEye => "leftEye".to_owned(),
            Bone::LeftFoot => "leftFoot".to_owned(),
            Bone::LeftHand => "leftHand".to_owned(),
            Bone::LeftIndexDistal => "leftIndexDistal".to_owned(),
            Bone::LeftIndexIntermediate => "leftIndexIntermediate".to_owned(),
            Bone::LeftIndexProximal => "leftIndexProximal".to_owned(),
            Bone::LeftLittleDistal => "leftLittleDistal".to_owned(),
            Bone::LeftLittleIntermediate => "leftLittleIntermediate".to_owned(),
            Bone::LeftLittleProximal => "leftLittleProximal".to_owned(),
            Bone::LeftLowerArm => "leftLowerArm".to_owned(),
            Bone::LeftLowerLeg => "leftLowerLeg".to_owned(),
            Bone::LeftMiddleDistal => "leftMiddleDistal".to_owned(),
            Bone::LeftMiddleIntermediate => "leftMiddleIntermediate".to_owned(),
            Bone::LeftMiddleProximal => "leftMiddleProximal".to_owned(),
            Bone::LeftRingDistal => "leftRingDistal".to_owned(),
            Bone::LeftRingIntermediate => "leftRingIntermediate".to_owned(),
            Bone::LeftRingProximal => "leftRingProximal".to_owned(),
            Bone::LeftShoulder => "leftShoulder".to_owned(),
            Bone::LeftThumbDistal => "leftThumbDistal".to_owned(),
            Bone::LeftThumbIntermediate => "leftThumbIntermediate".to_owned(),
            Bone::LeftThumbProximal => "leftThumbProximal".to_owned(),
            Bone::LeftToes => "leftToes".to_owned(),
            Bone::LeftUpperArm => "leftUpperArm".to_owned(),
            Bone::LeftUpperLeg => "leftUpperLeg".to_owned(),
            Bone::Neck => "neck".to_owned(),
            Bone::RightEye => "rightEye".to_owned(),
            Bone::RightFoot => "rightFoot".to_owned(),
            Bone::RightHand => "rightHand".to_owned(),
            Bone::RightIndexDistal => "rightIndexDistal".to_owned(),
            Bone::RightIndexIntermediate => "rightIndexIntermediate".to_owned(),
            Bone::RightIndexProximal => "rightIndexProximal".to_owned(),
            Bone::RightLittleDistal => "rightLittleDistal".to_owned(),
            Bone::RightLittleIntermediate => "rightLittleIntermediate".to_owned(),
            Bone::RightLittleProximal => "rightLittleProximal".to_owned(),
            Bone::RightLowerArm => "rightLowerArm".to_owned(),
            Bone::RightLowerLeg => "rightLowerLeg".to_owned(),
            Bone::RightMiddleDistal => "rightMiddleDistal".to_owned(),
            Bone::RightMiddleIntermediate => "rightMiddleIntermediate".to_owned(),
            Bone::RightMiddleProximal => "rightMiddleProximal".to_owned(),
            Bone::RightRingDistal => "rightRingDistal".to_owned(),
            Bone::RightRingIntermediate => "rightRingIntermediate".to_owned(),
            Bone::RightRingProximal => "rightRingProximal".to_owned(),
            Bone::RightShoulder => "rightShoulder".to_owned(),
            Bone::RightThumbDistal => "rightThumbDistal".to_owned(),
            Bone::RightThumbIntermediate => "rightThumbIntermediate".to_owned(),
            Bone::RightThumbProximal => "rightThumbProximal".to_owned(),
            Bone::RightToes => "rightToes".to_owned(),
            Bone::RightUpperArm => "rightUpperArm".to_owned(),
            Bone::RightUpperLeg => "rightUpperLeg".to_owned(),
            Bone::Spine => "spine".to_owned(),
            Bone::UpperChest => "upperChest".to_owned(),
        }
    }
}

impl Codec for Bone {
    open spec fn accepts(j: JsonView) -> bool {
        j matches JsonView::String(s) && Bone::is_name(s)
    }

    open spec fn denotes(j: JsonView, x: Bone) -> bool {
        j == JsonView::String(x.name())
    }

    open spec fn encoding(x: Bone) -> JsonView {
        JsonView::String(x.name())
    }

    open spec fn wf(x: Bone) -> bool {
        true
    }

    proof fn lemma_round_trip(x: Bone) {
        Bone::lemma_name_is_name(x);
    }

    fn decode(j: &Json) -> (r: Result<Bone, DecodeError>) {
        match j {
            Json::String(s) => match Bone::from_name(s) {
                Some(x) => Ok(x),
                None => Err(DecodeError),
            },
            _ => Err(DecodeError),
        }
    }

    fn encode(&self) -> (j: Json) {
        Json::String(self.to_name())
    }
}

/// Who may perform as the avatar.
#[derive(Clone, Copy, Debug, PartialEq, Eq, Hash, Structural)]
pub enum AllowedUserName {
    Everyone,
    ExplicitlyLicensedPerson,
    OnlyAuthor,
}

impl Name for AllowedUserName {
    open spec fn name(self) -> Seq<char> {
        match self {
            AllowedUserName::Everyone => "Everyone"@,
            AllowedUserName::ExplicitlyLicensedPerson => "ExplicitlyLicensedPerson"@,
            AllowedUserName::OnlyAuthor => "OnlyAuthor"@,
        }
    }

    open spec fn is_name(s: Seq<char>) -> bool {
        s == "Everyone"@
        || s == "ExplicitlyLicensedPerson"@
        || s == "OnlyAuthor"@
    }

    proof fn lemma_name_is_name(x: AllowedUserName) {
    }

    fn from_name(s: &String) -> (r: Option<AllowedUserName>) {
        if eq_str(s, "Everyone") {
            Some(AllowedUserName::Everyone)
        } else if eq_str(s, "ExplicitlyLicensedPerson") {
            Some(AllowedUserName::ExplicitlyLicensedPerson)
        } else if eq_str(s, "OnlyAuthor") {
            Some(AllowedUserName::OnlyAuthor)
        } else {
            None
        }
    }

    fn to_name(&self) -> (r: String) {
        match self {
            AllowedUserName::Everyone => "Everyone".to_owned(),
            AllowedUserName::ExplicitlyLicensedPerson => "ExplicitlyLicensedPerson".to_owned(),
            AllowedUserName::OnlyAuthor => "OnlyAuthor".to_owned(),
        }
    }
}

impl Codec for AllowedUserName {
    open spec fn accepts(j: JsonView) -> bool {
        j matches JsonView::String(s) && AllowedUserName::is_name(s)
    }

    open spec fn denotes(j: JsonView, x: AllowedUserName) -> bool {
        j == JsonView::String(x.name())
    }

    open spec fn encoding(x: AllowedUserName) -> JsonView {
        JsonView::String(x.name())
    }

    open spec fn wf(x: AllowedUserName) -> bool {
        true
    }

    proof fn lemma_round_trip(x: AllowedUserName) {
        AllowedUserName::lemma_name_is_name(x);
    }

    fn decode(j: &Json) -> (r: Result<AllowedUserName, DecodeError>) {
        match j {
            Json::String(s) => match AllowedUserName::from_name(s) {
                Some(x) => Ok(x),
                None => Err(DecodeError),
            },
            _ => Err(DecodeError),
        }
    }

    fn encode(&self) -> (j: Json) {
        Json::String(self.to_name())
    }
}

/// Whether a use is allowed.
#[derive(Clone, Copy, Debug, PartialEq, Eq, Hash, Structural)]
pub enum UssageName {
    Allow,
    Disallow,
}

impl Name for UssageName {
    open spec fn name(self) -> Seq<char> {
        match self {
            UssageName::Allow => "Allow"@,
            UssageName::Disallow => "Disallow"@,
        }
    }

    open spec fn is_name(s: Seq<char>) -> bool {
        s == "Allow"@
        || s == "Disallow"@
    }

    proof fn lemma_name_is_name(x: UssageName) {
    }

    fn from_name(s: &String) -> (r: Option<UssageName>) {
        if eq_str(s, "Allow") {
            Some(UssageName::Allow)
        } else if eq_str(s, "Disallow") {
            Some(UssageName::Disallow)
        } else {
            None
        }
    }

    fn to_name(&self) -> (r: String) {
        match self {
            UssageName::Allow => "Allow".to_owned(),
            UssageName::Disallow => "Disallow".to_owned(),
        }
    }
}

impl Codec for UssageName {
    open spec fn accepts(j: JsonView) -> bool {
        j matches JsonView::String(s) && UssageName::is_name(s)
    }

    open spec fn denotes(j: JsonView, x: UssageName) -> bool {
        j == JsonView::String(x.name())
    }

    open spec fn encoding(x: UssageName) -> JsonView {
        JsonView::String(x.name())
    }

    open spec fn wf(x: UssageName) -> bool {
        true
    }

    proof fn lemma_round_trip(x: UssageName) {
        UssageName::lemma_name_is_name(x);
    }

    fn decode(j: &Json) -> (r: Result<UssageName, DecodeError>) {
        match j {
            Json::String(s) => match UssageName::from_name(s) {
                Some(x) => Ok(x),
                None => Err(DecodeError),
            },
            _ => Err(DecodeError),
        }
    }

    fn encode(&self) -> (j: Json) {
        Json::String(self.to_name())
    }
}

/// The license of the model.
#[derive(Clone, Copy, Debug, PartialEq, Eq, Hash, Structural)]
pub enum LicenseName {
    Cc0,
    CcBy,
    CcByNc,
    CcByNcNd,
    CcByNcSa,
    CcByNd,
    CcBySa,
    RedistributionProhibited,
    Other,
}

impl Name for LicenseName {
    open spec fn name(self) -> Seq<char> {
        match self {
            LicenseName::Cc0 => "CC0"@,
            LicenseName::CcBy => "CC_BY"@,
            LicenseName::CcByNc => "CC_BY_NC"@,
            LicenseName::CcByNcNd => "CC_BY_NC_ND"@,
            LicenseName::CcByNcSa => "CC_BY_NC_SA"@,
            LicenseName::CcByNd => "CC_BY_ND"@,
            LicenseName::CcBySa => "CC_BY_SA"@,
            LicenseName::RedistributionProhibited => "Redistribution_Prohibited"@,
            LicenseName::Other => "Other"@,
        }
    }

    open spec fn is_name(s: Seq<char>) -> bool {
        s == "CC0"@
        || s == "CC_BY"@
        || s == "CC_BY_NC"@
        || s == "CC_BY_NC_ND"@
        || s == "CC_BY_NC_SA"@
        || s == "CC_BY_ND"@
        || s == "CC_BY_SA"@
        || s == "Redistribution_Prohibited"@
        || s == "Other"@
    }

    proof fn lemma_name_is_name(x: LicenseName) {
    }

    fn from_name(s: &String) -> (r: Option<LicenseName>) {
        if eq_str(s, "CC0") {
            Some(LicenseName::Cc0)
        } else if eq_str(s, "CC_BY") {
            Some(LicenseName::CcBy)
        } else if eq_str(s, "CC_BY_NC") {
            Some(LicenseName::CcByNc)
        } else if eq_str(s, "CC_BY_NC_ND") {
            Some(LicenseName::CcByNcNd)
        } else if eq_str(s, "CC_BY_NC_SA") {
            Some(LicenseName::CcByNcSa)
        } else if eq_str(s, "CC_BY_ND") {
            Some(LicenseName::CcByNd)
        } else if eq_str(s, "CC_BY_SA") {
            Some(LicenseName::CcBySa)
        } else if eq_str(s, "Redistribution_Prohibited") {
            Some(LicenseName::RedistributionProhibited)
        } else if eq_str(s, "Other") {
            Some(LicenseName::Other)
        } else {
            None
        }
    }

    fn to_name(&self) -> (r: String) {
        match self {
            LicenseName::Cc0 => "CC0".to_owned(),
            LicenseName::CcBy => "CC_BY".to_owned(),
            LicenseName::CcByNc => "CC_BY_NC".to_owned(),
            LicenseName::CcByNcNd => "CC_BY_NC_ND".to_owned(),
            LicenseName::CcByNcSa => "CC_BY_NC_SA".to_owned(),
            LicenseName::CcByNd => "CC_BY_ND".to_owned(),
            LicenseName::CcBySa => "CC_BY_SA".to_owned(),
            LicenseName::RedistributionProhibited => "Redistribution_Prohibited".to_owned(),
            LicenseName::Other => "Other".to_owned(),
        }
    }
}

impl Codec for LicenseName {
    open spec fn accepts(j: JsonView) -> bool {
        j matches JsonView::String(s) && LicenseName::is_name(s)
    }

    open spec fn denotes(j: JsonView, x: LicenseName) -> bool {
        j == JsonView::String(x.name())
    }

    open spec fn encoding(x: LicenseName) -> JsonView {
        JsonView::String(x.name())
    }

    open spec fn wf(x: LicenseName) -> bool {
        true
    }

    proof fn lemma_round_trip(x: LicenseName) {
        LicenseName::lemma_name_is_name(x);
    }

    fn decode(j: &Json) -> (r: Result<LicenseName, DecodeError>) {
        match j {
            Json::String(s) => match LicenseName::from_name(s) {
                Some(x) => Ok(x),
                None => Err(DecodeError),
            },
            _ => Err(DecodeError),
        }
    }

    fn encode(&self) -> (j: Json) {
        Json::String(self.to_name())
    }
}

/// Decoding the encoding of a well-formed VRM 0.0 extension object gives it back.
pub proof fn lemma_vrm0_round_trip(x: VRM0Schema)
    requires
        VRM0Schema::wf(x),
    ensures
        VRM0Schema::accepts(VRM0Schema::encoding(x)),
        VRM0Schema::denotes(VRM0Schema::encoding(x), x),
{
    VRM0Schema::lemma_round_trip(x);
}

} // verus!
