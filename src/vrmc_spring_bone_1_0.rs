//! Data structures for the `VRMC_springBone` 1.0 glTF extension.
use vstd::prelude::*;
use crate::json::{Json, JsonView, Number, get, entries_view};
use crate::codec::{
    Codec, opt_encoding, opt_wf, DecodeError, Extensions, Name, opt_ok, opt_is, req_ok, req_is,
    extras_is, opt_entry, req_entry, extras_entry, group_lookup, lemma_opt_field, lemma_req_field,
    opt_field, req_field, extras_field, put_opt, put_req, put_extras,
};

verus! {

/// The name of the spring-bone extension in a glTF document.
pub const VRMC_SPRING_BONE: &'static str = "VRMC_springBone";

/// Spring bones make objects such as costumes and hair sway.
#[derive(Clone, Debug)]
pub struct VrmcSpringBoneSchema {
    /// An array of collider groups.
    pub collider_groups: Option<Vec<ColliderGroup>>,
    /// An array of colliders.
    pub colliders: Option<Vec<Collider>>,
    pub extensions: Option<Extensions>,
    pub extras: Json,
    /// Specification version of VRMC_springBone.
    pub spec_version: String,
    /// An array of springs.
    pub springs: Option<Vec<Spring>>,
}

impl VrmcSpringBoneSchema {
    /// Decoding a JSON value as this entity succeeds.
    #[verifier::opaque]
    pub open spec fn spec_accepts(j: JsonView) -> bool {
        &&& j is Object
        &&& opt_ok::<Vec<ColliderGroup>>(get(j, "colliderGroups"@))
        &&& opt_ok::<Vec<Collider>>(get(j, "colliders"@))
        &&& opt_ok::<Extensions>(get(j, "extensions"@))
        &&& req_ok::<String>(get(j, "specVersion"@))
        &&& opt_ok::<Vec<Spring>>(get(j, "springs"@))
    }

    /// `x` is the entity that the JSON value `j` decodes to.
    #[verifier::opaque]
    pub open spec fn spec_denotes(j: JsonView, x: VrmcSpringBoneSchema) -> bool {
        &&& opt_is::<Vec<ColliderGroup>>(get(j, "colliderGroups"@), x.collider_groups)
        &&& opt_is::<Vec<Collider>>(get(j, "colliders"@), x.colliders)
        &&& opt_is::<Extensions>(get(j, "extensions"@), x.extensions)
        &&& extras_is(get(j, "extras"@), x.extras)
        &&& req_is::<String>(get(j, "specVersion"@), x.spec_version)
        &&& opt_is::<Vec<Spring>>(get(j, "springs"@), x.springs)
    }

    /// Every map of the entity has unique keys, and so on down.
    #[verifier::opaque]
    pub open spec fn spec_wf(x: VrmcSpringBoneSchema) -> bool {
        &&& opt_wf::<Vec<ColliderGroup>>(x.collider_groups)
        &&& opt_wf::<Vec<Collider>>(x.colliders)
        &&& opt_wf::<Extensions>(x.extensions)
        &&& <String as Codec>::wf(x.spec_version)
        &&& opt_wf::<Vec<Spring>>(x.springs)
    }
}

impl Codec for VrmcSpringBoneSchema {
    open spec fn accepts(j: JsonView) -> bool {
        VrmcSpringBoneSchema::spec_accepts(j)
    }

    open spec fn denotes(j: JsonView, x: VrmcSpringBoneSchema) -> bool {
        VrmcSpringBoneSchema::spec_denotes(j, x)
    }

    open spec fn wf(x: VrmcSpringBoneSchema) -> bool {
        VrmcSpringBoneSchema::spec_wf(x)
    }

    open spec fn encoding(x: VrmcSpringBoneSchema) -> JsonView {
        JsonView::Object(
            opt_entry::<Vec<ColliderGroup>>("colliderGroups"@, x.collider_groups)
            + opt_entry::<Vec<Collider>>("colliders"@, x.colliders)
            + opt_entry::<Extensions>("extensions"@, x.extensions)
            + extras_entry("extras"@, x.extras)
            + req_entry::<String>("specVersion"@, x.spec_version)
            + opt_entry::<Vec<Spring>>("springs"@, x.springs)
        )
    }

    proof fn lemma_round_trip(x: VrmcSpringBoneSchema) {
        broadcast use group_lookup;

        reveal(VrmcSpringBoneSchema::spec_accepts);
        reveal(VrmcSpringBoneSchema::spec_denotes);
        reveal(VrmcSpringBoneSchema::spec_wf);
        reveal_strlit("colliderGroups");
        reveal_strlit("colliders");
        reveal_strlit("extensions");
        reveal_strlit("extras");
        reveal_strlit("specVersion");
        reveal_strlit("springs");
        assert("colliderGroups"@.len() == 14);
        assert("colliders"@.len() == 9);
        assert("extensions"@.len() == 10);
        assert("extras"@.len() == 6);
        assert("specVersion"@.len() == 11);
        assert("springs"@.len() == 7);
        let e = VrmcSpringBoneSchema::encoding(x);
        assert(get(e, "colliderGroups"@) == opt_encoding(x.collider_groups));
        assert(get(e, "colliders"@) == opt_encoding(x.colliders));
        assert(get(e, "extensions"@) == opt_encoding(x.extensions));
        assert(get(e, "extras"@) == if x.extras@ != JsonView::Null { Some(x.extras@) } else { None });
        assert(get(e, "specVersion"@) == Some(<String as Codec>::encoding(x.spec_version)));
        assert(get(e, "springs"@) == opt_encoding(x.springs));
        lemma_opt_field::<Vec<ColliderGroup>>(x.collider_groups);
        lemma_opt_field::<Vec<Collider>>(x.colliders);
        lemma_opt_field::<Extensions>(x.extensions);
        lemma_req_field::<String>(x.spec_version);
        lemma_opt_field::<Vec<Spring>>(x.springs);
    }

    fn decode(j: &Json) -> (r: Result<VrmcSpringBoneSchema, DecodeError>) {
        proof {
            reveal(VrmcSpringBoneSchema::spec_accepts);
            reveal(VrmcSpringBoneSchema::spec_denotes);
            reveal(VrmcSpringBoneSchema::spec_wf);
        }
        if !j.is_object() {
            return Err(DecodeError);
        }
        let collider_groups = opt_field::<Vec<ColliderGroup>>(j, "colliderGroups")?;
        let colliders = opt_field::<Vec<Collider>>(j, "colliders")?;
        let extensions = opt_field::<Extensions>(j, "extensions")?;
        let extras = extras_field(j, "extras");
        let spec_version = req_field::<String>(j, "specVersion")?;
        let springs = opt_field::<Vec<Spring>>(j, "springs")?;
        Ok(VrmcSpringBoneSchema {
            collider_groups,
            colliders,
            extensions,
            extras,
            spec_version,
            springs,
        })
    }

    fn encode(&self) -> (j: Json) {
        let mut m: Vec<(String, Json)> = Vec::new();
        put_opt(&mut m, "colliderGroups", &self.collider_groups);
        assert(entries_view(m@) =~= opt_entry::<Vec<ColliderGroup>>("colliderGroups"@, self.collider_groups));
        put_opt(&mut m, "colliders", &self.colliders);
        put_opt(&mut m, "extensions", &self.extensions);
        put_extras(&mut m, "extras", &self.extras);
        put_req(&mut m, "specVersion", &self.spec_version);
        put_opt(&mut m, "springs", &self.springs);
        Json::Object(m)
    }
}

/// A group of colliders.
#[derive(Clone, Debug)]
pub struct ColliderGroup {
    /// Indices of the colliders of the group.
    pub colliders: Vec<usize>,
    pub extensions: Option<Extensions>,
    pub extras: Json,
    /// Name of the collider group.
    pub name: Option<String>,
}

impl ColliderGroup {
    /// Decoding a JSON value as this entity succeeds.
    #[verifier::opaque]
    pub open spec fn spec_accepts(j: JsonView) -> bool {
        &&& j is Object
        &&& req_ok::<Vec<usize>>(get(j, "colliders"@))
        &&& opt_ok::<Extensions>(get(j, "extensions"@))
        &&& opt_ok::<String>(get(j, "name"@))
    }

    /// `x` is the entity that the JSON value `j` decodes to.
    #[verifier::opaque]
    pub open spec fn spec_denotes(j: JsonView, x: ColliderGroup) -> bool {
        &&& req_is::<Vec<usize>>(get(j, "colliders"@), x.colliders)
        &&& opt_is::<Extensions>(get(j, "extensions"@), x.extensions)
        &&& extras_is(get(j, "extras"@), x.extras)
        &&& opt_is::<String>(get(j, "name"@), x.name)
    }

    /// Every map of the entity has unique keys, and so on down.
    #[verifier::opaque]
    pub open spec fn spec_wf(x: ColliderGroup) -> bool {
        &&& <Vec<usize> as Codec>::wf(x.colliders)
        &&& opt_wf::<Extensions>(x.extensions)
        &&& opt_wf::<String>(x.name)
    }
}

impl Codec for ColliderGroup {
    open spec fn accepts(j: JsonView) -> bool {
        ColliderGroup::spec_accepts(j)
    }

    open spec fn denotes(j: JsonView, x: ColliderGroup) -> bool {
        ColliderGroup::spec_denotes(j, x)
    }

    open spec fn wf(x: ColliderGroup) -> bool {
        ColliderGroup::spec_wf(x)
    }

    open spec fn encoding(x: ColliderGroup) -> JsonView {
        JsonView::Object(
            req_entry::<Vec<usize>>("colliders"@, x.colliders)
            + opt_entry::<Extensions>("extensions"@, x.extensions)
            + extras_entry("extras"@, x.extras)
            + opt_entry::<String>("name"@, x.name)
        )
    }

    proof fn lemma_round_trip(x: ColliderGroup) {
        broadcast use group_lookup;

        reveal(ColliderGroup::spec_accepts);
        reveal(ColliderGroup::spec_denotes);
        reveal(ColliderGroup::spec_wf);
        reveal_strlit("colliders");
        reveal_strlit("extensions");
        reveal_strlit("extras");
        reveal_strlit("name");
        assert("colliders"@.len() == 9);
        assert("extensions"@.len() == 10);
        assert("extras"@.len() == 6);
        assert("name"@.len() == 4);
        let e = ColliderGroup::encoding(x);
        assert(get(e, "colliders"@) == Some(<Vec<usize> as Codec>::encoding(x.colliders)));
        assert(get(e, "extensions"@) == opt_encoding(x.extensions));
        assert(get(e, "extras"@) == if x.extras@ != JsonView::Null { Some(x.extras@) } else { None });
        assert(get(e, "name"@) == opt_encoding(x.name));
        lemma_req_field::<Vec<usize>>(x.colliders);
        lemma_opt_field::<Extensions>(x.extensions);
        lemma_opt_field::<String>(x.name);
    }

    fn decode(j: &Json) -> (r: Result<ColliderGroup, DecodeError>) {
        proof {
            reveal(ColliderGroup::spec_accepts);
            reveal(ColliderGroup::spec_denotes);
            reveal(ColliderGroup::spec_wf);
        }
        if !j.is_object() {
            return Err(DecodeError);
        }
        let colliders = req_field::<Vec<usize>>(j, "colliders")?;
        let extensions = opt_field::<Extensions>(j, "extensions")?;
        let extras = extras_field(j, "extras");
        let name = opt_field::<String>(j, "name")?;
        Ok(ColliderGroup {
            colliders,
            extensions,
            extras,
            name,
        })
    }

    fn encode(&self) -> (j: Json) {
        let mut m: Vec<(String, Json)> = Vec::new();
        put_req(&mut m, "colliders", &self.colliders);
        assert(entries_view(m@) =~= req_entry::<Vec<usize>>("colliders"@, self.colliders));
        put_opt(&mut m, "extensions", &self.extensions);
        put_extras(&mut m, "extras", &self.extras);
        put_opt(&mut m, "name", &self.name);
        Json::Object(m)
    }
}

/// A collider attached to a node.
#[derive(Clone, Debug)]
pub struct Collider {
    pub extensions: Option<Extensions>,
    pub extras: Json,
    /// The node index.
    pub node: usize,
    pub shape: ColliderShape,
}

impl Collider {
    /// Decoding a JSON value as this entity succeeds.
    #[verifier::opaque]
    pub open spec fn spec_accepts(j: JsonView) -> bool {
        &&& j is Object
        &&& opt_ok::<Extensions>(get(j, "extensions"@))
        &&& req_ok::<usize>(get(j, "node"@))
        &&& req_ok::<ColliderShape>(get(j, "shape"@))
    }

    /// `x` is the entity that the JSON value `j` decodes to.
    #[verifier::opaque]
    pub open spec fn spec_denotes(j: JsonView, x: Collider) -> bool {
        &&& opt_is::<Extensions>(get(j, "extensions"@), x.extensions)
        &&& extras_is(get(j, "extras"@), x.extras)
        &&& req_is::<usize>(get(j, "node"@), x.node)
        &&& req_is::<ColliderShape>(get(j, "shape"@), x.shape)
    }

    /// Every map of the entity has unique keys, and so on down.
    #[verifier::opaque]
    pub open spec fn spec_wf(x: Collider) -> bool {
        &&& opt_wf::<Extensions>(x.extensions)
        &&& <usize as Codec>::wf(x.node)
        &&& <ColliderShape as Codec>::wf(x.shape)
    }
}

impl Codec for Collider {
    open spec fn accepts(j: JsonView) -> bool {
        Collider::spec_accepts(j)
    }

    open spec fn denotes(j: JsonView, x: Collider) -> bool {
        Collider::spec_denotes(j, x)
    }

    open spec fn wf(x: Collider) -> bool {
        Collider::spec_wf(x)
    }

    open spec fn encoding(x: Collider) -> JsonView {
        JsonView::Object(
            opt_entry::<Extensions>("extensions"@, x.extensions)
            + extras_entry("extras"@, x.extras)
            + req_entry::<usize>("node"@, x.node)
            + req_entry::<ColliderShape>("shape"@, x.shape)
        )
    }

    proof fn lemma_round_trip(x: Collider) {
        broadcast use group_lookup;

        reveal(Collider::spec_accepts);
        reveal(Collider::spec_denotes);
        reveal(Collider::spec_wf);
        reveal_strlit("extensions");
        reveal_strlit("extras");
        reveal_strlit("node");
        reveal_strlit("shape");
        assert("extensions"@.len() == 10);
        assert("extras"@.len() == 6);
        assert("node"@.len() == 4);
        assert("shape"@.len() == 5);
        let e = Collider::encoding(x);
        assert(get(e, "extensions"@) == opt_encoding(x.extensions));
        assert(get(e, "extras"@) == if x.extras@ != JsonView::Null { Some(x.extras@) } else { None });
        assert(get(e, "node"@) == Some(<usize as Codec>::encoding(x.node)));
        assert(get(e, "shape"@) == Some(<ColliderShape as Codec>::encoding(x.shape)));
        lemma_opt_field::<Extensions>(x.extensions);
        lemma_req_field::<usize>(x.node);
        lemma_req_field::<ColliderShape>(x.shape);
    }

    fn decode(j: &Json) -> (r: Result<Collider, DecodeError>) {
        proof {
            reveal(Collider::spec_accepts);
            reveal(Collider::spec_denotes);
            reveal(Collider::spec_wf);
        }
        if !j.is_object() {
            return Err(DecodeError);
        }
        let extensions = opt_field::<Extensions>(j, "extensions")?;
        let extras = extras_field(j, "extras");
        let node = req_field::<usize>(j, "node")?;
        let shape = req_field::<ColliderShape>(j, "shape")?;
        Ok(Collider {
            extensions,
            extras,
            node,
            shape,
        })
    }

    fn encode(&self) -> (j: Json) {
        let mut m: Vec<(String, Json)> = Vec::new();
        put_opt(&mut m, "extensions", &self.extensions);
        assert(entries_view(m@) =~= opt_entry::<Extensions>("extensions"@, self.extensions));
        put_extras(&mut m, "extras", &self.extras);
        put_req(&mut m, "node", &self.node);
        put_req(&mut m, "shape", &self.shape);
        Json::Object(m)
    }
}

/// The shape of a collider: one of a sphere and a capsule is expected.
/// Neither both nor none is rejected here; that is left to the consumer.
#[derive(Clone, Debug)]
pub struct ColliderShape {
    pub capsule: Option<ColliderShapeCapsule>,
    pub extensions: Option<Extensions>,
    pub extras: Json,
    pub sphere: Option<ColliderShapeSphere>,
}

impl ColliderShape {
    /// Decoding a JSON value as this entity succeeds.
    #[verifier::opaque]
    pub open spec fn spec_accepts(j: JsonView) -> bool {
        &&& j is Object
        &&& opt_ok::<ColliderShapeCapsule>(get(j, "capsule"@))
        &&& opt_ok::<Extensions>(get(j, "extensions"@))
        &&& opt_ok::<ColliderShapeSphere>(get(j, "sphere"@))
    }

    /// `x` is the entity that the JSON value `j` decodes to.
    #[verifier::opaque]
    pub open spec fn spec_denotes(j: JsonView, x: ColliderShape) -> bool {
        &&& opt_is::<ColliderShapeCapsule>(get(j, "capsule"@), x.capsule)
        &&& opt_is::<Extensions>(get(j, "extensions"@), x.extensions)
        &&& extras_is(get(j, "extras"@), x.extras)
        &&& opt_is::<ColliderShapeSphere>(get(j, "sphere"@), x.sphere)
    }

    /// Every map of the entity has unique keys, and so on down.
    #[verifier::opaque]
    pub open spec fn spec_wf(x: ColliderShape) -> bool {
        &&& opt_wf::<ColliderShapeCapsule>(x.capsule)
        &&& opt_wf::<Extensions>(x.extensions)
        &&& opt_wf::<ColliderShapeSphere>(x.sphere)
    }
}

impl Codec for ColliderShape {
    open spec fn accepts(j: JsonView) -> bool {
        ColliderShape::spec_accepts(j)
    }

    open spec fn denotes(j: JsonView, x: ColliderShape) -> bool {
        ColliderShape::spec_denotes(j, x)
    }

    open spec fn wf(x: ColliderShape) -> bool {
        ColliderShape::spec_wf(x)
    }

    open spec fn encoding(x: ColliderShape) -> JsonView {
        JsonView::Object(
            opt_entry::<ColliderShapeCapsule>("capsule"@, x.capsule)
            + opt_entry::<Extensions>("extensions"@, x.extensions)
            + extras_entry("extras"@, x.extras)
            + opt_entry::<ColliderShapeSphere>("sphere"@, x.sphere)
        )
    }

    proof fn lemma_round_trip(x: ColliderShape) {
        broadcast use group_lookup;

        reveal(ColliderShape::spec_accepts);
        reveal(ColliderShape::spec_denotes);
        reveal(ColliderShape::spec_wf);
        reveal_strlit("capsule");
        reveal_strlit("extensions");
        reveal_strlit("extras");
        reveal_strlit("sphere");
        assert("capsule"@.len() == 7);
        assert("extensions"@.len() == 10);
        assert("extras"@.len() == 6);
        assert("sphere"@.len() == 6);
        assert("extras"@[0] != "sphere"@[0]);
        let e = ColliderShape::encoding(x);
        assert(get(e, "capsule"@) == opt_encoding(x.capsule));
        assert(get(e, "extensions"@) == opt_encoding(x.extensions));
        assert(get(e, "extras"@) == if x.extras@ != JsonView::Null { Some(x.extras@) } else { None });
        assert(get(e, "sphere"@) == opt_encoding(x.sphere));
        lemma_opt_field::<ColliderShapeCapsule>(x.capsule);
        lemma_opt_field::<Extensions>(x.extensions);
        lemma_opt_field::<ColliderShapeSphere>(x.sphere);
    }

    fn decode(j: &Json) -> (r: Result<ColliderShape, DecodeError>) {
        proof {
            reveal(ColliderShape::spec_accepts);
            reveal(ColliderShape::spec_denotes);
            reveal(ColliderShape::spec_wf);
        }
        if !j.is_object() {
            return Err(DecodeError);
        }
        let capsule = opt_field::<ColliderShapeCapsule>(j, "capsule")?;
        let extensions = opt_field::<Extensions>(j, "extensions")?;
        let extras = extras_field(j, "extras");
        let sphere = opt_field::<ColliderShapeSphere>(j, "sphere")?;
        Ok(ColliderShape {
            capsule,
            extensions,
            extras,
            sphere,
        })
    }

    fn encode(&self) -> (j: Json) {
        let mut m: Vec<(String, Json)> = Vec::new();
        put_opt(&mut m, "capsule", &self.capsule);
        assert(entries_view(m@) =~= opt_entry::<ColliderShapeCapsule>("capsule"@, self.capsule));
        put_opt(&mut m, "extensions", &self.extensions);
        put_extras(&mut m, "extras", &self.extras);
        put_opt(&mut m, "sphere", &self.sphere);
        Json::Object(m)
    }
}

/// A capsule collider.
#[derive(Clone, Debug)]
pub struct ColliderShapeCapsule {
    /// The capsule head.
    pub offset: Option<[Number; 3]>,
    /// The capsule radius.
    pub radius: Option<Number>,
    /// The capsule tail.
    pub tail: Option<[Number; 3]>,
}

impl ColliderShapeCapsule {
    /// Decoding a JSON value as this entity succeeds.
    #[verifier::opaque]
    pub open spec fn spec_accepts(j: JsonView) -> bool {
        &&& j is Object
        &&& opt_ok::<[Number; 3]>(get(j, "offset"@))
        &&& opt_ok::<Number>(get(j, "radius"@))
        &&& opt_ok::<[Number; 3]>(get(j, "tail"@))
    }

    /// `x` is the entity that the JSON value `j` decodes to.
    #[verifier::opaque]
    pub open spec fn spec_denotes(j: JsonView, x: ColliderShapeCapsule) -> bool {
        &&& opt_is::<[Number; 3]>(get(j, "offset"@), x.offset)
        &&& opt_is::<Number>(get(j, "radius"@), x.radius)
        &&& opt_is::<[Number; 3]>(get(j, "tail"@), x.tail)
    }

    /// Every map of the entity has unique keys, and so on down.
    #[verifier::opaque]
    pub open spec fn spec_wf(x: ColliderShapeCapsule) -> bool {
        &&& opt_wf::<[Number; 3]>(x.offset)
        &&& opt_wf::<Number>(x.radius)
        &&& opt_wf::<[Number; 3]>(x.tail)
    }
}

impl Codec for ColliderShapeCapsule {
    open spec fn accepts(j: JsonView) -> bool {
        ColliderShapeCapsule::spec_accepts(j)
    }

    open spec fn denotes(j: JsonView, x: ColliderShapeCapsule) -> bool {
        ColliderShapeCapsule::spec_denotes(j, x)
    }

    open spec fn wf(x: ColliderShapeCapsule) -> bool {
        ColliderShapeCapsule::spec_wf(x)
    }

    open spec fn encoding(x: ColliderShapeCapsule) -> JsonView {
        JsonView::Object(
            opt_entry::<[Number; 3]>("offset"@, x.offset)
            + opt_entry::<Number>("radius"@, x.radius)
            + opt_entry::<[Number; 3]>("tail"@, x.tail)
        )
    }

    proof fn lemma_round_trip(x: ColliderShapeCapsule) {
        broadcast use group_lookup;

        reveal(ColliderShapeCapsule::spec_accepts);
        reveal(ColliderShapeCapsule::spec_denotes);
        reveal(ColliderShapeCapsule::spec_wf);
        reveal_strlit("offset");
        reveal_strlit("radius");
        reveal_strlit("tail");
        assert("offset"@.len() == 6);
        assert("radius"@.len() == 6);
        assert("tail"@.len() == 4);
        assert("offset"@[0] != "radius"@[0]);
        let e = ColliderShapeCapsule::encoding(x);
        assert(get(e, "offset"@) == opt_encoding(x.offset));
        assert(get(e, "radius"@) == opt_encoding(x.radius));
        assert(get(e, "tail"@) == opt_encoding(x.tail));
        lemma_opt_field::<[Number; 3]>(x.offset);
        lemma_opt_field::<Number>(x.radius);
        lemma_opt_field::<[Number; 3]>(x.tail);
    }

    fn decode(j: &Json) -> (r: Result<ColliderShapeCapsule, DecodeError>) {
        proof {
            reveal(ColliderShapeCapsule::spec_accepts);
            reveal(ColliderShapeCapsule::spec_denotes);
            reveal(ColliderShapeCapsule::spec_wf);
        }
        if !j.is_object() {
            return Err(DecodeError);
        }
        let offset = opt_field::<[Number; 3]>(j, "offset")?;
        let radius = opt_field::<Number>(j, "radius")?;
        let tail = opt_field::<[Number; 3]>(j, "tail")?;
        Ok(ColliderShapeCapsule {
            offset,
            radius,
            tail,
        })
    }

    fn encode(&self) -> (j: Json) {
        let mut m: Vec<(String, Json)> = Vec::new();
        put_opt(&mut m, "offset", &self.offset);
        assert(entries_view(m@) =~= opt_entry::<[Number; 3]>("offset"@, self.offset));
        put_opt(&mut m, "radius", &self.radius);
        put_opt(&mut m, "tail", &self.tail);
        Json::Object(m)
    }
}

/// A sphere collider.
#[derive(Clone, Debug)]
pub struct ColliderShapeSphere {
    /// The sphere center.
    pub offset: Option<[Number; 3]>,
    /// The sphere radius.
    pub radius: Option<Number>,
}

impl ColliderShapeSphere {
    /// Decoding a JSON value as this entity succeeds.
    #[verifier::opaque]
    pub open spec fn spec_accepts(j: JsonView) -> bool {
        &&& j is Object
        &&& opt_ok::<[Number; 3]>(get(j, "offset"@))
        &&& opt_ok::<Number>(get(j, "radius"@))
    }

    /// `x` is the entity that the JSON value `j` decodes to.
    #[verifier::opaque]
    pub open spec fn spec_denotes(j: JsonView, x: ColliderShapeSphere) -> bool {
        &&& opt_is::<[Number; 3]>(get(j, "offset"@), x.offset)
        &&& opt_is::<Number>(get(j, "radius"@), x.radius)
    }

    /// Every map of the entity has unique keys, and so on down.
    #[verifier::opaque]
    pub open spec fn spec_wf(x: ColliderShapeSphere) -> bool {
        &&& opt_wf::<[Number; 3]>(x.offset)
        &&& opt_wf::<Number>(x.radius)
    }
}

impl Codec for ColliderShapeSphere {
    open spec fn accepts(j: JsonView) -> bool {
        ColliderShapeSphere::spec_accepts(j)
    }

    open spec fn denotes(j: JsonView, x: ColliderShapeSphere) -> bool {
        ColliderShapeSphere::spec_denotes(j, x)
    }

    open spec fn wf(x: ColliderShapeSphere) -> bool {
        ColliderShapeSphere::spec_wf(x)
    }

    open spec fn encoding(x: ColliderShapeSphere) -> JsonView {
        JsonView::Object(
            opt_entry::<[Number; 3]>("offset"@, x.offset)
            + opt_entry::<Number>("radius"@, x.radius)
        )
    }

    proof fn lemma_round_trip(x: ColliderShapeSphere) {
        broadcast use group_lookup;

        reveal(ColliderShapeSphere::spec_accepts);
        reveal(ColliderShapeSphere::spec_denotes);
        reveal(ColliderShapeSphere::spec_wf);
        reveal_strlit("offset");
        reveal_strlit("radius");
        assert("offset"@.len() == 6);
        assert("radius"@.len() == 6);
        assert("offset"@[0] != "radius"@[0]);
        let e = ColliderShapeSphere::encoding(x);
        assert(get(e, "offset"@) == opt_encoding(x.offset));
        assert(get(e, "radius"@) == opt_encoding(x.radius));
        lemma_opt_field::<[Number; 3]>(x.offset);
        lemma_opt_field::<Number>(x.radius);
    }

    fn decode(j: &Json) -> (r: Result<ColliderShapeSphere, DecodeError>) {
        proof {
            reveal(ColliderShapeSphere::spec_accepts);
            reveal(ColliderShapeSphere::spec_denotes);
            reveal(ColliderShapeSphere::spec_wf);
        }
        if !j.is_object() {
            return Err(DecodeError);
        }
        let offset = opt_field::<[Number; 3]>(j, "offset")?;
        let radius = opt_field::<Number>(j, "radius")?;
        Ok(ColliderShapeSphere {
            offset,
            radius,
        })
    }

    fn encode(&self) -> (j: Json) {
        let mut m: Vec<(String, Json)> = Vec::new();
        put_opt(&mut m, "offset", &self.offset);
        assert(entries_view(m@) =~= opt_entry::<[Number; 3]>("offset"@, self.offset));
        put_opt(&mut m, "radius", &self.radius);
        Json::Object(m)
    }
}

/// A chain of joints that sway together.
///
/// Each joint after the first should be a descendant of the previous one in
/// the node hierarchy. That hierarchy belongs to the glTF document, so the
/// decoder does not check it: the consumer does.
#[derive(Clone, Debug)]
pub struct Spring {
    /// The index of the node used as the root of the center space.
    pub center: Option<usize>,
    /// Indices of the collider groups that collide with this spring.
    pub collider_groups: Option<Vec<i64>>,
    pub extensions: Option<Extensions>,
    pub extras: Json,
    /// Joints of the spring.
    pub joints: Vec<SpringBoneJoint>,
    /// Name of the spring.
    pub name: Option<String>,
}

impl Spring {
    /// Decoding a JSON value as this entity succeeds.
    #[verifier::opaque]
    pub open spec fn spec_accepts(j: JsonView) -> bool {
        &&& j is Object
        &&& opt_ok::<usize>(get(j, "center"@))
        &&& opt_ok::<Vec<i64>>(get(j, "colliderGroups"@))
        &&& opt_ok::<Extensions>(get(j, "extensions"@))
        &&& req_ok::<Vec<SpringBoneJoint>>(get(j, "joints"@))
        &&& opt_ok::<String>(get(j, "name"@))
    }

    /// `x` is the entity that the JSON value `j` decodes to.
    #[verifier::opaque]
    pub open spec fn spec_denotes(j: JsonView, x: Spring) -> bool {
        &&& opt_is::<usize>(get(j, "center"@), x.center)
        &&& opt_is::<Vec<i64>>(get(j, "colliderGroups"@), x.collider_groups)
        &&& opt_is::<Extensions>(get(j, "extensions"@), x.extensions)
        &&& extras_is(get(j, "extras"@), x.extras)
        &&& req_is::<Vec<SpringBoneJoint>>(get(j, "joints"@), x.joints)
        &&& opt_is::<String>(get(j, "name"@), x.name)
    }

    /// Every map of the entity has unique keys, and so on down.
    #[verifier::opaque]
    pub open spec fn spec_wf(x: Spring) -> bool {
        &&& opt_wf::<usize>(x.center)
        &&& opt_wf::<Vec<i64>>(x.collider_groups)
        &&& opt_wf::<Extensions>(x.extensions)
        &&& <Vec<SpringBoneJoint> as Codec>::wf(x.joints)
        &&& opt_wf::<String>(x.name)
    }
}

impl Codec for Spring {
    open spec fn accepts(j: JsonView) -> bool {
        Spring::spec_accepts(j)
    }

    open spec fn denotes(j: JsonView, x: Spring) -> bool {
        Spring::spec_denotes(j, x)
    }

    open spec fn wf(x: Spring) -> bool {
        Spring::spec_wf(x)
    }

    open spec fn encoding(x: Spring) -> JsonView {
        JsonView::Object(
            opt_entry::<usize>("center"@, x.center)
            + opt_entry::<Vec<i64>>("colliderGroups"@, x.collider_groups)
            + opt_entry::<Extensions>("extensions"@, x.extensions)
            + extras_entry("extras"@, x.extras)
            + req_entry::<Vec<SpringBoneJoint>>("joints"@, x.joints)
            + opt_entry::<String>("name"@, x.name)
        )
    }

    proof fn lemma_round_trip(x: Spring) {
        broadcast use group_lookup;

        reveal(Spring::spec_accepts);
        reveal(Spring::spec_denotes);
        reveal(Spring::spec_wf);
        reveal_strlit("center");
        reveal_strlit("colliderGroups");
        reveal_strlit("extensions");
        reveal_strlit("extras");
        reveal_strlit("joints");
        reveal_strlit("name");
        assert("center"@.len() == 6);
        assert("colliderGroups"@.len() == 14);
        assert("extensions"@.len() == 10);
        assert("extras"@.len() == 6);
        assert("joints"@.len() == 6);
        assert("name"@.len() == 4);
        assert("center"@[0] != "extras"@[0]);
        assert("center"@[0] != "joints"@[0]);
        assert("extras"@[0] != "joints"@[0]);
        let e = Spring::encoding(x);
        assert(get(e, "center"@) == opt_encoding(x.center));
        assert(get(e, "colliderGroups"@) == opt_encoding(x.collider_groups));
        assert(get(e, "extensions"@) == opt_encoding(x.extensions));
        assert(get(e, "extras"@) == if x.extras@ != JsonView::Null { Some(x.extras@) } else { None });
        assert(get(e, "joints"@) == Some(<Vec<SpringBoneJoint> as Codec>::encoding(x.joints)));
        assert(get(e, "name"@) == opt_encoding(x.name));
        lemma_opt_field::<usize>(x.center);
        lemma_opt_field::<Vec<i64>>(x.collider_groups);
        lemma_opt_field::<Extensions>(x.extensions);
        lemma_req_field::<Vec<SpringBoneJoint>>(x.joints);
        lemma_opt_field::<String>(x.name);
    }

    fn decode(j: &Json) -> (r: Result<Spring, DecodeError>) {
        proof {
            reveal(Spring::spec_accepts);
            reveal(Spring::spec_denotes);
            reveal(Spring::spec_wf);
        }
        if !j.is_object() {
            return Err(DecodeError);
        }
        let center = opt_field::<usize>(j, "center")?;
        let collider_groups = opt_field::<Vec<i64>>(j, "colliderGroups")?;
        let extensions = opt_field::<Extensions>(j, "extensions")?;
        let extras = extras_field(j, "extras");
        let joints = req_field::<Vec<SpringBoneJoint>>(j, "joints")?;
        let name = opt_field::<String>(j, "name")?;
        Ok(Spring {
            center,
            collider_groups,
            extensions,
            extras,
            joints,
            name,
        })
    }

    fn encode(&self) -> (j: Json) {
        let mut m: Vec<(String, Json)> = Vec::new();
        put_opt(&mut m, "center", &self.center);
        assert(entries_view(m@) =~= opt_entry::<usize>("center"@, self.center));
        put_opt(&mut m, "colliderGroups", &self.collider_groups);
        put_opt(&mut m, "extensions", &self.extensions);
        put_extras(&mut m, "extras", &self.extras);
        put_req(&mut m, "joints", &self.joints);
        put_opt(&mut m, "name", &self.name);
        Json::Object(m)
    }
}

/// A bone joint of a spring.
#[derive(Clone, Debug)]
pub struct SpringBoneJoint {
    /// Air resistance. Deceleration force.
    pub drag_force: Option<Number>,
    pub extensions: Option<Extensions>,
    pub extras: Json,
    /// The direction of gravity.
    pub gravity_dir: Option<[Number; 3]>,
    /// Gravitational acceleration.
    pub gravity_power: Option<Number>,
    /// The radius of the spring sphere.
    pub hit_radius: Option<Number>,
    /// The node index.
    pub node: usize,
    /// The force to return to the initial pose.
    pub stiffness: Option<Number>,
}

impl SpringBoneJoint {
    /// Decoding a JSON value as this entity succeeds.
    #[verifier::opaque]
    pub open spec fn spec_accepts(j: JsonView) -> bool {
        &&& j is Object
        &&& opt_ok::<Number>(get(j, "dragForce"@))
        &&& opt_ok::<Extensions>(get(j, "extensions"@))
        &&& opt_ok::<[Number; 3]>(get(j, "gravityDir"@))
        &&& opt_ok::<Number>(get(j, "gravityPower"@))
        &&& opt_ok::<Number>(get(j, "hitRadius"@))
        &&& req_ok::<usize>(get(j, "node"@))
        &&& opt_ok::<Number>(get(j, "stiffness"@))
    }

    /// `x` is the entity that the JSON value `j` decodes to.
    #[verifier::opaque]
    pub open spec fn spec_denotes(j: JsonView, x: SpringBoneJoint) -> bool {
        &&& opt_is::<Number>(get(j, "dragForce"@), x.drag_force)
        &&& opt_is::<Extensions>(get(j, "extensions"@), x.extensions)
        &&& extras_is(get(j, "extras"@), x.extras)
        &&& opt_is::<[Number; 3]>(get(j, "gravityDir"@), x.gravity_dir)
        &&& opt_is::<Number>(get(j, "gravityPower"@), x.gravity_power)
        &&& opt_is::<Number>(get(j, "hitRadius"@), x.hit_radius)
        &&& req_is::<usize>(get(j, "node"@), x.node)
        &&& opt_is::<Number>(get(j, "stiffness"@), x.stiffness)
    }

    /// Every map of the entity has unique keys, and so on down.
    #[verifier::opaque]
    pub open spec fn spec_wf(x: SpringBoneJoint) -> bool {
        &&& opt_wf::<Number>(x.drag_force)
        &&& opt_wf::<Extensions>(x.extensions)
        &&& opt_wf::<[Number; 3]>(x.gravity_dir)
        &&& opt_wf::<Number>(x.gravity_power)
        &&& opt_wf::<Number>(x.hit_radius)
        &&& <usize as Codec>::wf(x.node)
        &&& opt_wf::<Number>(x.stiffness)
    }
}

impl Codec for SpringBoneJoint {
    open spec fn accepts(j: JsonView) -> bool {
        SpringBoneJoint::spec_accepts(j)
    }

    open spec fn denotes(j: JsonView, x: SpringBoneJoint) -> bool {
        SpringBoneJoint::spec_denotes(j, x)
    }

    open spec fn wf(x: SpringBoneJoint) -> bool {
        SpringBoneJoint::spec_wf(x)
    }

    open spec fn encoding(x: SpringBoneJoint) -> JsonView {
        JsonView::Object(
            opt_entry::<Number>("dragForce"@, x.drag_force)
            + opt_entry::<Extensions>("extensions"@, x.extensions)
            + extras_entry("extras"@, x.extras)
            + opt_entry::<[Number; 3]>("gravityDir"@, x.gravity_dir)
            + opt_entry::<Number>("gravityPower"@, x.gravity_power)
            + opt_entry::<Number>("hitRadius"@, x.hit_radius)
            + req_entry::<usize>("node"@, x.node)
            + opt_entry::<Number>("stiffness"@, x.stiffness)
        )
    }

    proof fn lemma_round_trip(x: SpringBoneJoint) {
        broadcast use group_lookup;

        reveal(SpringBoneJoint::spec_accepts);
        reveal(SpringBoneJoint::spec_denotes);
        reveal(SpringBoneJoint::spec_wf);
        reveal_strlit("dragForce");
        reveal_strlit("extensions");
        reveal_strlit("extras");
        reveal_strlit("gravityDir");
        reveal_strlit("gravityPower");
        reveal_strlit("hitRadius");
        reveal_strlit("node");
        reveal_strlit("stiffness");
        assert("dragForce"@.len() == 9);
        assert("extensions"@.len() == 10);
        assert("extras"@.len() == 6);
        assert("gravityDir"@.len() == 10);
        assert("gravityPower"@.len() == 12);
        assert("hitRadius"@.len() == 9);
        assert("node"@.len() == 4);
        assert("stiffness"@.len() == 9);
        assert("dragForce"@[0] != "hitRadius"@[0]);
        assert("dragForce"@[0] != "stiffness"@[0]);
        assert("extensions"@[0] != "gravityDir"@[0]);
        assert("hitRadius"@[0] != "stiffness"@[0]);
        let e = SpringBoneJoint::encoding(x);
        assert(get(e, "dragForce"@) == opt_encoding(x.drag_force));
        assert(get(e, "extensions"@) == opt_encoding(x.extensions));
        assert(get(e, "extras"@) == if x.extras@ != JsonView::Null { Some(x.extras@) } else { None });
        assert(get(e, "gravityDir"@) == opt_encoding(x.gravity_dir));
        assert(get(e, "gravityPower"@) == opt_encoding(x.gravity_power));
        assert(get(e, "hitRadius"@) == opt_encoding(x.hit_radius));
        assert(get(e, "node"@) == Some(<usize as Codec>::encoding(x.node)));
        assert(get(e, "stiffness"@) == opt_encoding(x.stiffness));
        lemma_opt_field::<Number>(x.drag_force);
        lemma_opt_field::<Extensions>(x.extensions);
        lemma_opt_field::<[Number; 3]>(x.gravity_dir);
        lemma_opt_field::<Number>(x.gravity_power);
        lemma_opt_field::<Number>(x.hit_radius);
        lemma_req_field::<usize>(x.node);
        lemma_opt_field::<Number>(x.stiffness);
    }

    fn decode(j: &Json) -> (r: Result<SpringBoneJoint, DecodeError>) {
        proof {
            reveal(SpringBoneJoint::spec_accepts);
            reveal(SpringBoneJoint::spec_denotes);
            reveal(SpringBoneJoint::spec_wf);
        }
        if !j.is_object() {
            return Err(DecodeError);
        }
        let drag_force = opt_field::<Number>(j, "dragForce")?;
        let extensions = opt_field::<Extensions>(j, "extensions")?;
        let extras = extras_field(j, "extras");
        let gravity_dir = opt_field::<[Number; 3]>(j, "gravityDir")?;
        let gravity_power = opt_field::<Number>(j, "gravityPower")?;
        let hit_radius = opt_field::<Number>(j, "hitRadius")?;
        let node = req_field::<usize>(j, "node")?;
        let stiffness = opt_field::<Number>(j, "stiffness")?;
        Ok(SpringBoneJoint {
            drag_force,
            extensions,
            extras,
            gravity_dir,
            gravity_power,
            hit_radius,
            node,
            stiffness,
        })
    }

    fn encode(&self) -> (j: Json) {
        let mut m: Vec<(String, Json)> = Vec::new();
        put_opt(&mut m, "dragForce", &self.drag_force);
        assert(entries_view(m@) =~= opt_entry::<Number>("dragForce"@, self.drag_force));
        put_opt(&mut m, "extensions", &self.extensions);
        put_extras(&mut m, "extras", &self.extras);
        put_opt(&mut m, "gravityDir", &self.gravity_dir);
        put_opt(&mut m, "gravityPower", &self.gravity_power);
        put_opt(&mut m, "hitRadius", &self.hit_radius);
        put_req(&mut m, "node", &self.node);
        put_opt(&mut m, "stiffness", &self.stiffness);
        Json::Object(m)
    }
}

/// Decoding the encoding of a well-formed spring-bone extension object gives it back.
pub proof fn lemma_spring_bone_round_trip(x: VrmcSpringBoneSchema)
    requires
        VrmcSpringBoneSchema::wf(x),
    ensures
        VrmcSpringBoneSchema::accepts(VrmcSpringBoneSchema::encoding(x)),
        VrmcSpringBoneSchema::denotes(VrmcSpringBoneSchema::encoding(x), x),
{
    VrmcSpringBoneSchema::lemma_round_trip(x);
}

} // verus!
