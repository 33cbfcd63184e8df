//! The names of the preset expressions.
use vstd::prelude::*;
use crate::json::{Json, JsonView};
use crate::codec::{Codec, DecodeError, Name, eq_str};

verus! {

/// The names of the preset expressions.
#[derive(Clone, Copy, Debug, PartialEq, Eq, Hash, Structural)]
pub enum ExpressionPresetName {
    Aa,
    Angry,
    Blink,
    BlinkLeft,
    BlinkRight,
    Ee,
    Happy,
    Ih,
    LookDown,
    LookLeft,
    LookRight,
    LookUp,
    Neutral,
    Oh,
    Ou,
    Relaxed,
    Sad,
    Surprised,
}

impl Name for ExpressionPresetName {
    open spec fn name(self) -> Seq<char> {
        match self {
            ExpressionPresetName::Aa => "aa"@,
            ExpressionPresetName::Angry => "angry"@,
            ExpressionPresetName::Blink => "blink"@,
            ExpressionPresetName::BlinkLeft => "blinkLeft"@,
            ExpressionPresetName::BlinkRight => "blinkRight"@,
            ExpressionPresetName::Ee => "ee"@,
            ExpressionPresetName::Happy => "happy"@,
            ExpressionPresetName::Ih => "ih"@,
            ExpressionPresetName::LookDown => "lookDown"@,
            ExpressionPresetName::LookLeft => "lookLeft"@,
            ExpressionPresetName::LookRight => "lookRight"@,
            ExpressionPresetName::LookUp => "lookUp"@,
            ExpressionPresetName::Neutral => "neutral"@,
            ExpressionPresetName::Oh => "oh"@,
            ExpressionPresetName::Ou => "ou"@,
            ExpressionPresetName::Relaxed => "relaxed"@,
            ExpressionPresetName::Sad => "sad"@,
            ExpressionPresetName::Surprised => "surprised"@,
        }
    }

    open spec fn is_name(s: Seq<char>) -> bool {
        s == "aa"@
        || s == "angry"@
        || s == "blink"@
        || s == "blinkLeft"@
        || s == "blinkRight"@
        || s == "ee"@
        || s == "happy"@
        || s == "ih"@
        || s == "lookDown"@
        || s == "lookLeft"@
        || s == "lookRight"@
        || s == "lookUp"@
        || s == "neutral"@
        || s == "oh"@
        || s == "ou"@
        || s == "relaxed"@
        || s == "sad"@
        || s == "surprised"@
    }

    proof fn lemma_name_is_name(x: ExpressionPresetName) {
    }

    fn from_name(s: &String) -> (r: Option<ExpressionPresetName>) {
        if eq_str(s, "aa") {
            Some(ExpressionPresetName::Aa)
        } else if eq_str(s, "angry") {
            Some(ExpressionPresetName::Angry)
        } else if eq_str(s, "blink") {
            Some(ExpressionPresetName::Blink)
        } else if eq_str(s, "blinkLeft") {
            Some(ExpressionPresetName::BlinkLeft)
        } else if eq_str(s, "blinkRight") {
            Some(ExpressionPresetName::BlinkRight)
        } else if eq_str(s, "ee") {
            Some(ExpressionPresetName::Ee)
        } else if eq_str(s, "happy") {
            Some(ExpressionPresetName::Happy)
        } else if eq_str(s, "ih") {
            Some(ExpressionPresetName::Ih)
        } else if eq_str(s, "lookDown") {
            Some(ExpressionPresetName::LookDown)
        } else if eq_str(s, "lookLeft") {
            Some(ExpressionPresetName::LookLeft)
        } else if eq_str(s, "lookRight") {
            Some(ExpressionPresetName::LookRight)
        } else if eq_str(s, "lookUp") {
            Some(ExpressionPresetName::LookUp)
        } else if eq_str(s, "neutral") {
            Some(ExpressionPresetName::Neutral)
        } else if eq_str(s, "oh") {
            Some(ExpressionPresetName::Oh)
        } else if eq_str(s, "ou") {
            Some(ExpressionPresetName::Ou)
        } else if eq_str(s, "relaxed") {
            Some(ExpressionPresetName::Relaxed)
        } else if eq_str(s, "sad") {
            Some(ExpressionPresetName::Sad)
        } else if eq_str(s, "surprised") {
            Some(ExpressionPresetName::Surprised)
        } else {
            None
        }
    }

    fn to_name(&self) -> (r: String) {
        match self {
            ExpressionPresetName::Aa => "aa".to_owned(),
            ExpressionPresetName::Angry => "angry".to_owned(),
            ExpressionPresetName::Blink => "blink".to_owned(),
            ExpressionPresetName::BlinkLeft => "blinkLeft".to_owned(),
            ExpressionPresetName::BlinkRight => "blinkRight".to_owned(),
            ExpressionPresetName::Ee => "ee".to_owned(),
            ExpressionPresetName::Happy => "happy".to_owned(),
            ExpressionPresetName::Ih => "ih".to_owned(),
            ExpressionPresetName::LookDown => "lookDown".to_owned(),
            ExpressionPresetName::LookLeft => "lookLeft".to_owned(),
            ExpressionPresetName::LookRight => "lookRight".to_owned(),
            ExpressionPresetName::LookUp => "lookUp".to_owned(),
            ExpressionPresetName::Neutral => "neutral".to_owned(),
            ExpressionPresetName::Oh => "oh".to_owned(),
            ExpressionPresetName::Ou => "ou".to_owned(),
            ExpressionPresetName::Relaxed => "relaxed".to_owned(),
            ExpressionPresetName::Sad => "sad".to_owned(),
            ExpressionPresetName::Surprised => "surprised".to_owned(),
        }
    }
}

impl Codec for ExpressionPresetName {
    open spec fn accepts(j: JsonView) -> bool {
        j matches JsonView::String(s) && ExpressionPresetName::is_name(s)
    }

    open spec fn denotes(j: JsonView, x: ExpressionPresetName) -> bool {
        j == JsonView::String(x.name())
    }

    open spec fn encoding(x: ExpressionPresetName) -> JsonView {
        JsonView::String(x.name())
    }

    open spec fn wf(x: ExpressionPresetName) -> bool {
        true
    }

    proof fn lemma_round_trip(x: ExpressionPresetName) {
        ExpressionPresetName::lemma_name_is_name(x);
    }

    fn decode(j: &Json) -> (r: Result<ExpressionPresetName, DecodeError>) {
        match j {
            Json::String(s) => match ExpressionPresetName::from_name(s) {
                Some(x) => Ok(x),
                None => Err(DecodeError),
            },
            _ => Err(DecodeError),
        }
    }

    fn encode(&self) -> (j: Json) {
        Json::String(self.to_name())
    }
}

} // verus!
