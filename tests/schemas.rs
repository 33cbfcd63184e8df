use vrm_spec::codec::{Codec, DecodeError, Name};
use vrm_spec::json::{Json, Number};
use vrm_spec::vrm_0_0::{Bone, LicenseName, PresetName, VRM0Schema, VRMBlendShapeBind, VRMMaterial};
use vrm_spec::vrmc_materials_mtoon_1_0::{OutlineWidthMode, VrmcMaterialsMtoonSchema};
use vrm_spec::vrmc_spring_bone_1_0::VrmcSpringBoneSchema;
use vrm_spec::vrmc_vrm_1_0::{
    ExpressionOverrideType, ExpressionPresetName, HumanBoneName, LookAtType, VRMCVrmSchema,
};

fn convert(v: &serde_json::Value) -> Json {
    match v {
        serde_json::Value::Null => Json::Null,
        serde_json::Value::Bool(b) => Json::Bool(*b),
        serde_json::Value::Number(n) => {
            if let Some(u) = n.as_u64() {
                Json::Number(Number::PosInt(u))
            } else if let Some(i) = n.as_i64() {
                Json::Number(Number::NegInt(i))
            } else {
                Json::Number(Number::Float(n.as_f64().unwrap().to_bits()))
            }
        }
        serde_json::Value::String(s) => Json::String(s.clone()),
        serde_json::Value::Array(a) => Json::Array(a.iter().map(convert).collect()),
        serde_json::Value::Object(m) => {
            Json::Object(m.iter().map(|(k, v)| (k.clone(), convert(v))).collect())
        }
    }
}

fn value(text: &str) -> serde_json::Value {
    serde_json::from_str(text).unwrap()
}

fn parse(text: &str) -> Json {
    convert(&serde_json::from_str(text).unwrap())
}

const MINIMAL_VRM1: &str = r#"{
    "specVersion": "1.0",
    "humanoid": {"humanBones": {}},
    "meta": {"name": "Avatar", "authors": ["Someone"], "licenseUrl": "https://vrm.dev/licenses/1.0/"}
}"#;

fn without(text: &str, key: &str) -> Json {
    let mut v: serde_json::Value = serde_json::from_str(text).unwrap();
    v.as_object_mut().unwrap().remove(key);
    convert(&v)
}

#[test]
fn vrm0_empty_object_has_every_field_absent() {
    let vrm = VRM0Schema::decode(&parse("{}")).unwrap();
    assert!(vrm.blend_shape_master.is_none());
    assert!(vrm.exporter_version.is_none());
    assert!(vrm.first_person.is_none());
    assert!(vrm.humanoid.is_none());
    assert!(vrm.material_properties.is_none());
    assert!(vrm.meta.is_none());
    assert!(vrm.secondary_animation.is_none());
    assert!(vrm.spec_version.is_none());
}

#[test]
fn vrm0_null_fields_are_absent() {
    let vrm = VRM0Schema::decode(&parse(r#"{"meta": null, "specVersion": null}"#)).unwrap();
    assert!(vrm.meta.is_none());
    assert!(vrm.spec_version.is_none());
}

#[test]
fn vrm0_wrongly_typed_field_fails() {
    assert_eq!(VRM0Schema::decode(&parse(r#"{"specVersion": 1}"#)).err(), Some(DecodeError));
    assert_eq!(VRM0Schema::decode(&parse("[]")).err(), Some(DecodeError));
}

#[test]
fn vrm1_minimal_object_decodes() {
    let vrm = VRMCVrmSchema::decode(&parse(MINIMAL_VRM1)).unwrap();
    assert_eq!(vrm.spec_version, "1.0");
    assert_eq!(vrm.meta.name, "Avatar");
    assert_eq!(vrm.meta.authors, vec!["Someone".to_string()]);
    assert_eq!(vrm.meta.license_url, "https://vrm.dev/licenses/1.0/");
    assert!(vrm.expressions.is_none());
    assert!(vrm.first_person.is_none());
    assert!(vrm.look_at.is_none());
    assert!(vrm.meta.version.is_none());
    assert_eq!(vrm.humanoid.human_bones.entries.len(), 0);
}

#[test]
fn vrm1_requires_humanoid_meta_and_spec_version() {
    for key in ["humanoid", "meta", "specVersion"] {
        assert_eq!(VRMCVrmSchema::decode(&without(MINIMAL_VRM1, key)).err(), Some(DecodeError));
    }
    let mut v: serde_json::Value = serde_json::from_str(MINIMAL_VRM1).unwrap();
    v["meta"] = serde_json::Value::Null;
    assert_eq!(VRMCVrmSchema::decode(&convert(&v)).err(), Some(DecodeError));
}

#[test]
fn vrm1_meta_requires_name() {
    let mut v: serde_json::Value = serde_json::from_str(MINIMAL_VRM1).unwrap();
    v["meta"].as_object_mut().unwrap().remove("name");
    assert_eq!(VRMCVrmSchema::decode(&convert(&v)).err(), Some(DecodeError));
}

#[test]
fn vrm1_meta_requires_an_author() {
    let mut v: serde_json::Value = serde_json::from_str(MINIMAL_VRM1).unwrap();
    v["meta"]["authors"] = value("[]");
    assert_eq!(VRMCVrmSchema::decode(&convert(&v)).err(), Some(DecodeError));
}

#[test]
fn string_maps_keep_the_last_entry_of_a_key() {
    let flags = Json::Object(vec![
        ("k".to_string(), Json::Bool(true)),
        ("j".to_string(), Json::Bool(true)),
        ("k".to_string(), Json::Bool(false)),
    ]);
    let material = VRMMaterial::decode(&Json::Object(vec![("keywordMap".to_string(), flags)])).unwrap();
    assert_eq!(
        material.keyword_map.unwrap().entries,
        vec![("k".to_string(), false), ("j".to_string(), true)]
    );
}

#[test]
fn entities_can_be_cloned() {
    let vrm = VRMCVrmSchema::decode(&parse(MINIMAL_VRM1)).unwrap();
    let copy = vrm.clone();
    assert_eq!(format!("{:?}", vrm), format!("{:?}", copy));
}

#[test]
fn look_at_type_outside_vocabulary_fails() {
    let mut v: serde_json::Value = serde_json::from_str(MINIMAL_VRM1).unwrap();
    v["lookAt"] = value(r#"{"type": "invalid"}"#);
    assert_eq!(VRMCVrmSchema::decode(&convert(&v)).err(), Some(DecodeError));
    v["lookAt"] = value(r#"{"type": "bone"}"#);
    let vrm = VRMCVrmSchema::decode(&convert(&v)).unwrap();
    assert_eq!(vrm.look_at.unwrap().look_at_type, Some(LookAtType::Bone));
}

#[test]
fn legacy_unknown_preset_is_a_value() {
    let text = r#"{"blendShapeMaster": {"blendShapeGroups": [{"name": "x", "presetName": "unknown"}]}}"#;
    let vrm = VRM0Schema::decode(&parse(text)).unwrap();
    let groups = vrm.blend_shape_master.unwrap().blend_shape_groups.unwrap();
    assert_eq!(groups[0].preset_name, Some(PresetName::Unknown));
    assert_eq!(groups[0].name.as_deref(), Some("x"));
    let bad = r#"{"blendShapeMaster": {"blendShapeGroups": [{"presetName": "smile"}]}}"#;
    assert_eq!(VRM0Schema::decode(&parse(bad)).err(), Some(DecodeError));
}

#[test]
fn spring_joint_order_is_not_checked() {
    let text = r#"{"specVersion": "1.0", "springs": [{"joints": [{"node": 9}, {"node": 3}, {"node": 9}]}]}"#;
    let sb = VrmcSpringBoneSchema::decode(&parse(text)).unwrap();
    let springs = sb.springs.unwrap();
    let nodes: Vec<usize> = springs[0].joints.iter().map(|j| j.node).collect();
    assert_eq!(nodes, vec![9, 3, 9]);
}

#[test]
fn spring_joint_requires_node() {
    let text = r#"{"specVersion": "1.0", "springs": [{"joints": [{"stiffness": 1.0}]}]}"#;
    assert_eq!(VrmcSpringBoneSchema::decode(&parse(text)).err(), Some(DecodeError));
    let negative = r#"{"specVersion": "1.0", "springs": [{"joints": [{"node": -1}]}]}"#;
    assert_eq!(VrmcSpringBoneSchema::decode(&parse(negative)).err(), Some(DecodeError));
}

#[test]
fn collider_shape_with_both_payloads_decodes() {
    let text = r#"{"specVersion": "1.0", "colliders": [{"node": 1, "shape": {
        "sphere": {"radius": 0.1}, "capsule": {"radius": 0.2, "tail": [0, 1, 0]}}}]}"#;
    let sb = VrmcSpringBoneSchema::decode(&parse(text)).unwrap();
    let shape = &sb.colliders.unwrap()[0].shape;
    assert!(shape.sphere.is_some());
    assert!(shape.capsule.is_some());
    let tail = shape.capsule.as_ref().unwrap().tail.unwrap();
    assert_eq!(tail, [Number::PosInt(0), Number::PosInt(1), Number::PosInt(0)]);
}

#[test]
fn fixed_triples_need_three_numbers() {
    let text = r#"{"specVersion": "1.0", "matcapFactor": [1, 1]}"#;
    assert_eq!(VrmcMaterialsMtoonSchema::decode(&parse(text)).err(), Some(DecodeError));
    let text = r#"{"specVersion": "1.0", "matcapFactor": [1, 1, 1, 1]}"#;
    assert_eq!(VrmcMaterialsMtoonSchema::decode(&parse(text)).err(), Some(DecodeError));
}

#[test]
fn mtoon_decodes_fields() {
    let text = r#"{"specVersion": "1.0", "outlineWidthMode": "worldCoordinates",
        "renderQueueOffsetNumber": -3, "shadingShiftTexture": {"index": 2, "scale": 0.5},
        "extras": {"note": [1, "two"]}}"#;
    let m = VrmcMaterialsMtoonSchema::decode(&parse(text)).unwrap();
    assert_eq!(m.outline_width_mode, Some(OutlineWidthMode::WorldCoordinates));
    assert_eq!(m.render_queue_offset_number, Some(-3));
    assert_eq!(m.shading_shift_texture.as_ref().unwrap().index, 2);
    assert_eq!(format!("{:?}", m.extras), format!("{:?}", parse(r#"{"note": [1, "two"]}"#)));
    assert_eq!(VrmcMaterialsMtoonSchema::decode(&parse("{}")).err(), Some(DecodeError));
}

#[test]
fn legacy_references_normalize_negative_indices() {
    let bind = VRMBlendShapeBind::decode(&parse(r#"{"mesh": -1, "index": 3, "weight": 100}"#)).unwrap();
    assert_eq!(bind.mesh, None);
    assert_eq!(bind.index, Some(3));
    assert_eq!(bind.weight, Some(Number::PosInt(100)));
    let bind = VRMBlendShapeBind::decode(&parse(r#"{"mesh": 0}"#)).unwrap();
    assert_eq!(bind.mesh, Some(0));
}

#[test]
fn legacy_material_maps_are_normalized() {
    let text = r#"{"floatProperties": {"_Cutoff": 0.5, "_Broken": null},
        "textureProperties": {"_MainTex": 0, "_BumpMap": -1}, "keywordMap": {"_ALPHATEST_ON": true}}"#;
    let m = VRMMaterial::decode(&parse(text)).unwrap();
    let floats = m.float_properties.unwrap();
    assert_eq!(floats.entries.len(), 1);
    assert_eq!(floats.entries[0].0, "_Cutoff");
    let textures = m.texture_properties.unwrap();
    assert_eq!(textures.entries.len(), 1);
    assert_eq!(textures.entries[0], ("_MainTex".to_string(), 0));
    assert_eq!(m.keyword_map.unwrap().entries[0], ("_ALPHATEST_ON".to_string(), true));
}

#[test]
fn human_bones_accept_null_entries() {
    let mut v: serde_json::Value = serde_json::from_str(MINIMAL_VRM1).unwrap();
    v["humanoid"]["humanBones"] = value(r#"{"hips": {"node": 0}, "leftThumbMetacarpal": null}"#);
    let vrm = VRMCVrmSchema::decode(&convert(&v)).unwrap();
    let bones = &vrm.humanoid.human_bones.entries;
    assert_eq!(bones.len(), 2);
    assert_eq!(bones[0].0, HumanBoneName::Hips);
    assert_eq!(bones[0].1.as_ref().unwrap().node, Some(0));
    assert_eq!(bones[1].0, HumanBoneName::LeftThumbMetacarpal);
    assert!(bones[1].1.is_none());
    v["humanoid"]["humanBones"] = value(r#"{"tail": {"node": 0}}"#);
    assert_eq!(VRMCVrmSchema::decode(&convert(&v)).err(), Some(DecodeError));
}

#[test]
fn expressions_decode_preset_and_custom() {
    let mut v: serde_json::Value = serde_json::from_str(MINIMAL_VRM1).unwrap();
    v["expressions"] = value(r#"{
        "preset": {"happy": {"isBinary": true, "overrideBlink": "none"}},
        "custom": {"wink": {"morphTargetBinds": [{"node": 1, "index": 2, "weight": 1.0}]}}
    }"#);
    let vrm = VRMCVrmSchema::decode(&convert(&v)).unwrap();
    let expressions = vrm.expressions.unwrap();
    let preset = expressions.preset.unwrap();
    assert_eq!(preset.entries[0].0, ExpressionPresetName::Happy);
    assert_eq!(preset.entries[0].1.is_binary, Some(true));
    assert_eq!(preset.entries[0].1.override_blink, Some(ExpressionOverrideType::NoOverride));
    let custom = expressions.custom.unwrap();
    assert_eq!(custom.entries[0].0, "wink");
    let binds = custom.entries[0].1.morph_target_binds.as_ref().unwrap();
    assert_eq!((binds[0].node, binds[0].index), (1, 2));
    assert_eq!(binds[0].weight, Number::Float(1.0f64.to_bits()));
}

#[test]
fn encoding_omits_absent_fields() {
    let vrm = VRM0Schema::decode(&parse("{}")).unwrap();
    match vrm.encode() {
        Json::Object(m) => assert!(m.is_empty()),
        other => panic!("not an object: {:?}", other),
    }
    let vrm = VRMCVrmSchema::decode(&parse(MINIMAL_VRM1)).unwrap();
    match vrm.encode() {
        Json::Object(m) => {
            let keys: Vec<&str> = m.iter().map(|(k, _)| k.as_str()).collect();
            assert_eq!(keys, vec!["humanoid", "meta", "specVersion"]);
        }
        other => panic!("not an object: {:?}", other),
    }
}

#[test]
fn vrm0_round_trip() {
    let text = r#"{"exporterVersion": "UniVRM-0.99", "specVersion": "0.0",
        "meta": {"title": "A", "licenseName": "CC_BY_NC", "texture": 4, "allowedUserName": "OnlyAuthor"},
        "humanoid": {"armStretch": 0.05, "humanBones": [{"bone": "leftEye", "node": 7, "useDefaultValues": true,
            "min": {"x": 1}}]},
        "firstPerson": {"firstPersonBone": -1, "lookAtTypeName": "BlendShape",
            "lookAtHorizontalInner": {"curve": [0, 0, 0, 1, 1, 1, 1, 0], "xRange": 90, "yRange": 10}},
        "materialProperties": [{"name": "m", "floatProperties": {"_A": 1.0}, "textureProperties": {"_T": 3},
            "vectorProperties": {"_Color": [1, 1, 1, 1]}, "tagMap": {"RenderType": "Opaque"}}],
        "secondaryAnimation": {"boneGroups": [{"bones": [1, 2], "center": -1, "stiffiness": 1}],
            "colliderGroups": [{"node": 3, "colliders": [{"radius": 0.1, "offset": {"x": 0, "y": 0, "z": 0}}]}]}}"#;
    let first = VRM0Schema::decode(&parse(text)).unwrap();
    assert_eq!(first.meta.as_ref().unwrap().license_name, Some(LicenseName::CcByNc));
    assert_eq!(first.humanoid.as_ref().unwrap().human_bones.as_ref().unwrap()[0].bone, Some(Bone::LeftEye));
    let again = VRM0Schema::decode(&first.encode()).unwrap();
    assert_eq!(format!("{:?}", first), format!("{:?}", again));
}

#[test]
fn vrm1_round_trip() {
    let mut v: serde_json::Value = serde_json::from_str(MINIMAL_VRM1).unwrap();
    v["lookAt"] = value(r#"{"type": "expression", "offsetFromHeadBone": [0, 0.06, 0],
        "rangeMapHorizontalInner": {"inputMaxValue": 90, "outputScale": 10}}"#);
    v["firstPerson"] = value(r#"{"meshAnnotations": [{"node": 2, "type": "thirdPersonOnly"}]}"#);
    v["meta"]["commercialUsage"] = value(r#""personalNonProfit""#);
    v["extensions"] = value(r#"{"EXT_a": {"k": null, "n": [1]}}"#);
    let first = VRMCVrmSchema::decode(&convert(&v)).unwrap();
    let again = VRMCVrmSchema::decode(&first.encode()).unwrap();
    assert_eq!(format!("{:?}", first), format!("{:?}", again));
}

#[test]
fn spring_bone_round_trip() {
    let text = r#"{"specVersion": "1.0", "colliderGroups": [{"colliders": [0], "name": "g"}],
        "colliders": [{"node": 4, "shape": {"sphere": {"offset": [0, 0, 0], "radius": 0.5}}}],
        "springs": [{"name": "hair", "center": 2, "colliderGroups": [0],
            "joints": [{"node": 5, "hitRadius": 0.02, "gravityDir": [0, -1, 0], "dragForce": 0.4}]}]}"#;
    let first = VrmcSpringBoneSchema::decode(&parse(text)).unwrap();
    let again = VrmcSpringBoneSchema::decode(&first.encode()).unwrap();
    assert_eq!(format!("{:?}", first), format!("{:?}", again));
}

#[test]
fn mtoon_round_trip() {
    let text = r#"{"specVersion": "1.0", "shadeColorFactor": [0.9, 0.9, 1], "outlineWidthMode": "screenCoordinates",
        "matcapTexture": {"index": 1, "texCoord": 0}, "transparentWithZWrite": false,
        "uvAnimationScrollXSpeedFactor": 0.25}"#;
    let first = VrmcMaterialsMtoonSchema::decode(&parse(text)).unwrap();
    let again = VrmcMaterialsMtoonSchema::decode(&first.encode()).unwrap();
    assert_eq!(format!("{:?}", first), format!("{:?}", again));
}

#[test]
fn names_match_the_written_strings() {
    assert_eq!(Bone::UpperChest.to_name(), "upperChest");
    assert_eq!(PresetName::BlinkL.to_name(), "blink_l");
    assert_eq!(LicenseName::RedistributionProhibited.to_name(), "Redistribution_Prohibited");
    assert_eq!(HumanBoneName::from_name(&"rightLittleDistal".to_string()), Some(HumanBoneName::RightLittleDistal));
    assert_eq!(OutlineWidthMode::from_name(&"None".to_string()), None);
}
