//! The names of the bones of the humanoid skeleton.
use vstd::prelude::*;
use crate::json::{Json, JsonView};
use crate::codec::{Codec, DecodeError, Name, eq_str};

verus! {

/// The names of the bones of the humanoid skeleton.
#[derive(Clone, Copy, Debug, PartialEq, Eq, Hash, Structural)]
pub enum HumanBoneName {
    Hips,
    Spine,
    Chest,
    UpperChest,
    Neck,
    Head,
    LeftEye,
    RightEye,
    Jaw,
    LeftUpperLeg,
    LeftLowerLeg,
    LeftFoot,
    LeftToes,
    RightUpperLeg,
    RightLowerLeg,
    RightFoot,
    RightToes,
    LeftShoulder,
    LeftUpperArm,
    LeftLowerArm,
    LeftHand,
    RightShoulder,
    RightUpperArm,
    RightLowerArm,
    RightHand,
    LeftThumbMetacarpal,
    LeftThumbProximal,
    LeftThumbDistal,
    LeftIndexProximal,
    LeftIndexIntermediate,
    LeftIndexDistal,
    LeftMiddleProximal,
    LeftMiddleIntermediate,
    LeftMiddleDistal,
    LeftRingProximal,
    LeftRingIntermediate,
    LeftRingDistal,
    LeftLittleProximal,
    LeftLittleIntermediate,
    LeftLittleDistal,
    RightThumbMetacarpal,
    RightThumbProximal,
    RightThumbDistal,
    RightIndexProximal,
    RightIndexIntermediate,
    RightIndexDistal,
    RightMiddleProximal,
    RightMiddleIntermediate,
    RightMiddleDistal,
    RightRingProximal,
    RightRingIntermediate,
    RightRingDistal,
    RightLittleProximal,
    RightLittleIntermediate,
    RightLittleDistal,
}

impl Name for HumanBoneName {
    open spec fn name(self) -> Seq<char> {
        match self {
            HumanBoneName::Hips => "hips"@,
            HumanBoneName::Spine => "spine"@,
            HumanBoneName::Chest => "chest"@,
            HumanBoneName::UpperChest => "upperChest"@,
            HumanBoneName::Neck => "neck"@,
            HumanBoneName::Head => "head"@,
            HumanBoneName::LeftEye => "leftEye"@,
            HumanBoneName::RightEye => "rightEye"@,
            HumanBoneName::Jaw => "jaw"@,
            HumanBoneName::LeftUpperLeg => "leftUpperLeg"@,
            HumanBoneName::LeftLowerLeg => "leftLowerLeg"@,
            HumanBoneName::LeftFoot => "leftFoot"@,
            HumanBoneName::LeftToes => "leftToes"@,
            HumanBoneName::RightUpperLeg => "rightUpperLeg"@,
            HumanBoneName::RightLowerLeg => "rightLowerLeg"@,
            HumanBoneName::RightFoot => "rightFoot"@,
            HumanBoneName::RightToes => "rightToes"@,
            HumanBoneName::LeftShoulder => "leftShoulder"@,
            HumanBoneName::LeftUpperArm => "leftUpperArm"@,
            HumanBoneName::LeftLowerArm => "leftLowerArm"@,
            HumanBoneName::LeftHand => "leftHand"@,
            HumanBoneName::RightShoulder => "rightShoulder"@,
            HumanBoneName::RightUpperArm => "rightUpperArm"@,
            HumanBoneName::RightLowerArm => "rightLowerArm"@,
            HumanBoneName::RightHand => "rightHand"@,
            HumanBoneName::LeftThumbMetacarpal => "leftThumbMetacarpal"@,
            HumanBoneName::LeftThumbProximal => "leftThumbProximal"@,
            HumanBoneName::LeftThumbDistal => "leftThumbDistal"@,
            HumanBoneName::LeftIndexProximal => "leftIndexProximal"@,
            HumanBoneName::LeftIndexIntermediate => "leftIndexIntermediate"@,
            HumanBoneName::LeftIndexDistal => "leftIndexDistal"@,
            HumanBoneName::LeftMiddleProximal => "leftMiddleProximal"@,
            HumanBoneName::LeftMiddleIntermediate => "leftMiddleIntermediate"@,
            HumanBoneName::LeftMiddleDistal => "leftMiddleDistal"@,
            HumanBoneName::LeftRingProximal => "leftRingProximal"@,
            HumanBoneName::LeftRingIntermediate => "leftRingIntermediate"@,
            HumanBoneName::LeftRingDistal => "leftRingDistal"@,
            HumanBoneName::LeftLittleProximal => "leftLittleProximal"@,
            HumanBoneName::LeftLittleIntermediate => "leftLittleIntermediate"@,
            HumanBoneName::LeftLittleDistal => "leftLittleDistal"@,
            HumanBoneName::RightThumbMetacarpal => "rightThumbMetacarpal"@,
            HumanBoneName::RightThumbProximal => "rightThumbProximal"@,
            HumanBoneName::RightThumbDistal => "rightThumbDistal"@,
            HumanBoneName::RightIndexProximal => "rightIndexProximal"@,
            HumanBoneName::RightIndexIntermediate => "rightIndexIntermediate"@,
            HumanBoneName::RightIndexDistal => "rightIndexDistal"@,
            HumanBoneName::RightMiddleProximal => "rightMiddleProximal"@,
            HumanBoneName::RightMiddleIntermediate => "rightMiddleIntermediate"@,
            HumanBoneName::RightMiddleDistal => "rightMiddleDistal"@,
            HumanBoneName::RightRingProximal => "rightRingProximal"@,
            HumanBoneName::RightRingIntermediate => "rightRingIntermediate"@,
            HumanBoneName::RightRingDistal => "rightRingDistal"@,
            HumanBoneName::RightLittleProximal => "rightLittleProximal"@,
            HumanBoneName::RightLittleIntermediate => "rightLittleIntermediate"@,
            HumanBoneName::RightLittleDistal => "rightLittleDistal"@,
        }
    }

    open spec fn is_name(s: Seq<char>) -> bool {
        s == "hips"@
        || s == "spine"@
        || s == "chest"@
        || s == "upperChest"@
        || s == "neck"@
        || s == "head"@
        || s == "leftEye"@
        || s == "rightEye"@
        || s == "jaw"@
        || s == "leftUpperLeg"@
        || s == "leftLowerLeg"@
        || s == "leftFoot"@
        || s == "leftToes"@
        || s == "rightUpperLeg"@
        || s == "rightLowerLeg"@
        || s == "rightFoot"@
        || s == "rightToes"@
        || s == "leftShoulder"@
        || s == "leftUpperArm"@
        || s == "leftLowerArm"@
        || s == "leftHand"@
        || s == "rightShoulder"@
        || s == "rightUpperArm"@
        || s == "rightLowerArm"@
        || s == "rightHand"@
        || s == "leftThumbMetacarpal"@
        || s == "leftThumbProximal"@
        || s == "leftThumbDistal"@
        || s == "leftIndexProximal"@
        || s == "leftIndexIntermediate"@
        || s == "leftIndexDistal"@
        || s == "leftMiddleProximal"@
        || s == "leftMiddleIntermediate"@
        || s == "leftMiddleDistal"@
        || s == "leftRingProximal"@
        || s == "leftRingIntermediate"@
        || s == "leftRingDistal"@
        || s == "leftLittleProximal"@
        || s == "leftLittleIntermediate"@
        || s == "leftLittleDistal"@
        || s == "rightThumbMetacarpal"@
        || s == "rightThumbProximal"@
        || s == "rightThumbDistal"@
        || s == "rightIndexProximal"@
        || s == "rightIndexIntermediate"@
        || s == "rightIndexDistal"@
        || s == "rightMiddleProximal"@
        || s == "rightMiddleIntermediate"@
        || s == "rightMiddleDistal"@
        || s == "rightRingProximal"@
        || s == "rightRingIntermediate"@
        || s == "rightRingDistal"@
        || s == "rightLittleProximal"@
        || s == "rightLittleIntermediate"@
        || s == "rightLittleDistal"@
    }

    proof fn lemma_name_is_name(x: HumanBoneName) {
    }

    fn from_name(s: &String) -> (r: Option<HumanBoneName>) {
        if eq_str(s, "hips") {
            Some(HumanBoneName::Hips)
        } else if eq_str(s, "spine") {
            Some(HumanBoneName::Spine)
        } else if eq_str(s, "chest") {
            Some(HumanBoneName::Chest)
        } else if eq_str(s, "upperChest") {
            Some(HumanBoneName::UpperChest)
        } else if eq_str(s, "neck") {
            Some(HumanBoneName::Neck)
        } else if eq_str(s, "head") {
            Some(HumanBoneName::Head)
        } else if eq_str(s, "leftEye") {
            Some(HumanBoneName::LeftEye)
        } else if eq_str(s, "rightEye") {
            Some(HumanBoneName::RightEye)
        } else if eq_str(s, "jaw") {
            Some(HumanBoneName::Jaw)
        } else if eq_str(s, "leftUpperLeg") {
            Some(HumanBoneName::LeftUpperLeg)
        } else if eq_str(s, "leftLowerLeg") {
            Some(HumanBoneName::LeftLowerLeg)
        } else if eq_str(s, "leftFoot") {
            Some(HumanBoneName::LeftFoot)
        } else if eq_str(s, "leftToes") {
            Some(HumanBoneName::LeftToes)
        } else if eq_str(s, "rightUpperLeg") {
            Some(HumanBoneName::RightUpperLeg)
        } else if eq_str(s, "rightLowerLeg") {
            Some(HumanBoneName::RightLowerLeg)
        } else if eq_str(s, "rightFoot") {
            Some(HumanBoneName::RightFoot)
        } else if eq_str(s, "rightToes") {
            Some(HumanBoneName::RightToes)
        } else if eq_str(s, "leftShoulder") {
            Some(HumanBoneName::LeftShoulder)
        } else if eq_str(s, "leftUpperArm") {
            Some(HumanBoneName::LeftUpperArm)
        } else if eq_str(s, "leftLowerArm") {
            Some(HumanBoneName::LeftLowerArm)
        } else if eq_str(s, "leftHand") {
            Some(HumanBoneName::LeftHand)
        } else if eq_str(s, "rightShoulder") {
            Some(HumanBoneName::RightShoulder)
        } else if eq_str(s, "rightUpperArm") {
            Some(HumanBoneName::RightUpperArm)
        } else if eq_str(s, "rightLowerArm") {
            Some(HumanBoneName::RightLowerArm)
        } else if eq_str(s, "rightHand") {
            Some(HumanBoneName::RightHand)
        } else if eq_str(s, "leftThumbMetacarpal") {
            Some(HumanBoneName::LeftThumbMetacarpal)
        } else if eq_str(s, "leftThumbProximal") {
            Some(HumanBoneName::LeftThumbProximal)
        } else if eq_str(s, "leftThumbDistal") {
            Some(HumanBoneName::LeftThumbDistal)
        } else if eq_str(s, "leftIndexProximal") {
            Some(HumanBoneName::LeftIndexProximal)
        } else if eq_str(s, "leftIndexIntermediate") {
            Some(HumanBoneName::LeftIndexIntermediate)
        } else if eq_str(s, "leftIndexDistal") {
            Some(HumanBoneName::LeftIndexDistal)
        } else if eq_str(s, "leftMiddleProximal") {
            Some(HumanBoneName::LeftMiddleProximal)
        } else if eq_str(s, "leftMiddleIntermediate") {
            Some(HumanBoneName::LeftMiddleIntermediate)
        } else if eq_str(s, "leftMiddleDistal") {
            Some(HumanBoneName::LeftMiddleDistal)
        } else if eq_str(s, "leftRingProximal") {
            Some(HumanBoneName::LeftRingProximal)
        } else if eq_str(s, "leftRingIntermediate") {
            Some(HumanBoneName::LeftRingIntermediate)
        } else if eq_str(s, "leftRingDistal") {
            Some(HumanBoneName::LeftRingDistal)
        } else if eq_str(s, "leftLittleProximal") {
            Some(HumanBoneName::LeftLittleProximal)
        } else if eq_str(s, "leftLittleIntermediate") {
            Some(HumanBoneName::LeftLittleIntermediate)
        } else if eq_str(s, "leftLittleDistal") {
            Some(HumanBoneName::LeftLittleDistal)
        } else if eq_str(s, "rightThumbMetacarpal") {
            Some(HumanBoneName::RightThumbMetacarpal)
        } else if eq_str(s, "rightThumbProximal") {
            Some(HumanBoneName::RightThumbProximal)
        } else if eq_str(s, "rightThumbDistal") {
            Some(HumanBoneName::RightThumbDistal)
        } else if eq_str(s, "rightIndexProximal") {
            Some(HumanBoneName::RightIndexProximal)
        } else if eq_str(s, "rightIndexIntermediate") {
            Some(HumanBoneName::RightIndexIntermediate)
        } else if eq_str(s, "rightIndexDistal") {
            Some(HumanBoneName::RightIndexDistal)
        } else if eq_str(s, "rightMiddleProximal") {
            Some(HumanBoneName::RightMiddleProximal)
        } else if eq_str(s, "rightMiddleIntermediate") {
            Some(HumanBoneName::RightMiddleIntermediate)
        } else if eq_str(s, "rightMiddleDistal") {
            Some(HumanBoneName::RightMiddleDistal)
        } else if eq_str(s, "rightRingProximal") {
            Some(HumanBoneName::RightRingProximal)
        } else if eq_str(s, "rightRingIntermediate") {
            Some(HumanBoneName::RightRingIntermediate)
        } else if eq_str(s, "rightRingDistal") {
            Some(HumanBoneName::RightRingDistal)
        } else if eq_str(s, "rightLittleProximal") {
            Some(HumanBoneName::RightLittleProximal)
        } else if eq_str(s, "rightLittleIntermediate") {
            Some(HumanBoneName::RightLittleIntermediate)
        } else if eq_str(s, "rightLittleDistal") {
            Some(HumanBoneName::RightLittleDistal)
        } else {
            None
        }
    }

    fn to_name(&self) -> (r: String) {
        match self {
            HumanBoneName::Hips => "hips".to_owned(),
            HumanBoneName::Spine => "spine".to_owned(),
            HumanBoneName::Chest => "chest".to_owned(),
            HumanBoneName::UpperChest => "upperChest".to_owned(),
            HumanBoneName::Neck => "neck".to_owned(),
            HumanBoneName::Head => "head".to_owned(),
            HumanBoneName::LeftEye => "leftEye".to_owned(),
            HumanBoneName::RightEye => "rightEye".to_owned(),
            HumanBoneName::Jaw => "jaw".to_owned(),
            HumanBoneName::LeftUpperLeg => "leftUpperLeg".to_owned(),
            HumanBoneName::LeftLowerLeg => "leftLowerLeg".to_owned(),
            HumanBoneName::LeftFoot => "leftFoot".to_owned(),
            HumanBoneName::LeftToes => "leftToes".to_owned(),
            HumanBoneName::RightUpperLeg => "rightUpperLeg".to_owned(),
            HumanBoneName::RightLowerLeg => "rightLowerLeg".to_owned(),
            HumanBoneName::RightFoot => "rightFoot".to_owned(),
            HumanBoneName::RightToes => "rightToes".to_owned(),
            HumanBoneName::LeftShoulder => "leftShoulder".to_owned(),
            HumanBoneName::LeftUpperArm => "leftUpperArm".to_owned(),
            HumanBoneName::LeftLowerArm => "leftLowerArm".to_owned(),
            HumanBoneName::LeftHand => "leftHand".to_owned(),
            HumanBoneName::RightShoulder => "rightShoulder".to_owned(),
            HumanBoneName::RightUpperArm => "rightUpperArm".to_owned(),
            HumanBoneName::RightLowerArm => "rightLowerArm".to_owned(),
            HumanBoneName::RightHand => "rightHand".to_owned(),
            HumanBoneName::LeftThumbMetacarpal => "leftThumbMetacarpal".to_owned(),
            HumanBoneName::LeftThumbProximal => "leftThumbProximal".to_owned(),
            HumanBoneName::LeftThumbDistal => "leftThumbDistal".to_owned(),
            HumanBoneName::LeftIndexProximal => "leftIndexProximal".to_owned(),
            HumanBoneName::LeftIndexIntermediate => "leftIndexIntermediate".to_owned(),
            HumanBoneName::LeftIndexDistal => "leftIndexDistal".to_owned(),
            HumanBoneName::LeftMiddleProximal => "leftMiddleProximal".to_owned(),
            HumanBoneName::LeftMiddleIntermediate => "leftMiddleIntermediate".to_owned(),
            HumanBoneName::LeftMiddleDistal => "leftMiddleDistal".to_owned(),
            HumanBoneName::LeftRingProximal => "leftRingProximal".to_owned(),
            HumanBoneName::LeftRingIntermediate => "leftRingIntermediate".to_owned(),
            HumanBoneName::LeftRingDistal => "leftRingDistal".to_owned(),
            HumanBoneName::LeftLittleProximal => "leftLittleProximal".to_owned(),
            HumanBoneName::LeftLittleIntermediate => "leftLittleIntermediate".to_owned(),
            HumanBoneName::LeftLittleDistal => "leftLittleDistal".to_owned(),
            HumanBoneName::RightThumbMetacarpal => "rightThumbMetacarpal".to_owned(),
            HumanBoneName::RightThumbProximal => "rightThumbProximal".to_owned(),
            HumanBoneName::RightThumbDistal => "rightThumbDistal".to_owned(),
            HumanBoneName::RightIndexProximal => "rightIndexProximal".to_owned(),
            HumanBoneName::RightIndexIntermediate => "rightIndexIntermediate".to_owned(),
            HumanBoneName::RightIndexDistal => "rightIndexDistal".to_owned(),
            HumanBoneName::RightMiddleProximal => "rightMiddleProximal".to_owned(),
            HumanBoneName::RightMiddleIntermediate => "rightMiddleIntermediate".to_owned(),
            HumanBoneName::RightMiddleDistal => "rightMiddleDistal".to_owned(),
            HumanBoneName::RightRingProximal => "rightRingProximal".to_owned(),
            HumanBoneName::RightRingIntermediate => "rightRingIntermediate".to_owned(),
            HumanBoneName::RightRingDistal => "rightRingDistal".to_owned(),
            HumanBoneName::RightLittleProximal => "rightLittleProximal".to_owned(),
            HumanBoneName::RightLittleIntermediate => "rightLittleIntermediate".to_owned(),
            HumanBoneName::RightLittleDistal => "rightLittleDistal".to_owned(),
        }
    }
}

impl Codec for HumanBoneName {
    open spec fn accepts(j: JsonView) -> bool {
        j matches JsonView::String(s) && HumanBoneName::is_name(s)
    }

    open spec fn denotes(j: JsonView, x: HumanBoneName) -> bool {
        j == JsonView::String(x.name())
    }

    open spec fn encoding(x: HumanBoneName) -> JsonView {
        JsonView::String(x.name())
    }

    open spec fn wf(x: HumanBoneName) -> bool {
        true
    }

    proof fn lemma_round_trip(x: HumanBoneName) {
        HumanBoneName::lemma_name_is_name(x);
    }

    fn decode(j: &Json) -> (r: Result<HumanBoneName, DecodeError>) {
        match j {
            Json::String(s) => match HumanBoneName::from_name(s) {
                Some(x) => Ok(x),
                None => Err(DecodeError),
            },
            _ => Err(DecodeError),
        }
    }

    fn encode(&self) -> (j: Json) {
        Json::String(self.to_name())
    }
}

} // verus!
