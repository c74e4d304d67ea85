//! Skeleton joint identities and their canonical text names, as used by the
//! wire encoding of skeleton data.

use vstd::prelude::*;
use vstd::string::StringExecFns;

verus! {

/// A joint of the tracked skeleton.
#[derive(Debug, Clone, Copy, PartialEq, Eq, Hash, Structural)]
pub enum JointType {
    /// The reserved joint slot the engine never fills.
    Reserved,
    Head,
    Neck,
    Torso,
    Waist,
    LeftCollar,
    LeftShoulder,
    LeftElbow,
    LeftWrist,
    LeftHand,
    LeftFingertip,
    RightCollar,
    RightShoulder,
    RightElbow,
    RightWrist,
    RightHand,
    RightFingertip,
    LeftHip,
    LeftKnee,
    LeftAnkle,
    LeftFoot,
    RightHip,
    RightKnee,
    RightAnkle,
    RightFoot,
}

/// The canonical text name of each joint on the wire.
pub open spec fn joint_name_spec(jt: JointType) -> Seq<char> {
    match jt {
        JointType::Reserved => "none"@,
        JointType::Head => "head"@,
        JointType::Neck => "neck"@,
        JointType::Torso => "torso"@,
        JointType::Waist => "waist"@,
        JointType::LeftCollar => "leftCollar"@,
        JointType::LeftShoulder => "leftShoulder"@,
        JointType::LeftElbow => "leftElbow"@,
        JointType::LeftWrist => "leftWrist"@,
        JointType::LeftHand => "leftHand"@,
        JointType::LeftFingertip => "leftFingertip"@,
        JointType::RightCollar => "rightCollar"@,
        JointType::RightShoulder => "rightShoulder"@,
        JointType::RightElbow => "rightElbow"@,
        JointType::RightWrist => "rightWrist"@,
        JointType::RightHand => "rightHand"@,
        JointType::RightFingertip => "rightFingertip"@,
        JointType::LeftHip => "leftHip"@,
        JointType::LeftKnee => "leftKnee"@,
        JointType::LeftAnkle => "leftAnkle"@,
        JointType::LeftFoot => "leftFoot"@,
        JointType::RightHip => "rightHip"@,
        JointType::RightKnee => "rightKnee"@,
        JointType::RightAnkle => "rightAnkle"@,
        JointType::RightFoot => "rightFoot"@,
    }
}

/// The joint a canonical text name denotes, if any: the inverse reading of
/// `joint_name_spec`.
pub open spec fn joint_from_name_spec(s: Seq<char>) -> Option<JointType> {
    if s == "none"@ {
        Some(JointType::Reserved)
    } else if s == "head"@ {
        Some(JointType::Head)
    } else if s == "neck"@ {
        Some(JointType::Neck)
    } else if s == "torso"@ {
        Some(JointType::Torso)
    } else if s == "waist"@ {
        Some(JointType::Waist)
    } else if s == "leftCollar"@ {
        Some(JointType::LeftCollar)
    } else if s == "leftShoulder"@ {
        Some(JointType::LeftShoulder)
    } else if s == "leftElbow"@ {
        Some(JointType::LeftElbow)
    } else if s == "leftWrist"@ {
        Some(JointType::LeftWrist)
    } else if s == "leftHand"@ {
        Some(JointType::LeftHand)
    } else if s == "leftFingertip"@ {
        Some(JointType::LeftFingertip)
    } else if s == "rightCollar"@ {
        Some(JointType::RightCollar)
    } else if s == "rightShoulder"@ {
        Some(JointType::RightShoulder)
    } else if s == "rightElbow"@ {
        Some(JointType::RightElbow)
    } else if s == "rightWrist"@ {
        Some(JointType::RightWrist)
    } else if s == "rightHand"@ {
        Some(JointType::RightHand)
    } else if s == "rightFingertip"@ {
        Some(JointType::RightFingertip)
    } else if s == "leftHip"@ {
        Some(JointType::LeftHip)
    } else if s == "leftKnee"@ {
        Some(JointType::LeftKnee)
    } else if s == "leftAnkle"@ {
        Some(JointType::LeftAnkle)
    } else if s == "leftFoot"@ {
        Some(JointType::LeftFoot)
    } else if s == "rightHip"@ {
        Some(JointType::RightHip)
    } else if s == "rightKnee"@ {
        Some(JointType::RightKnee)
    } else if s == "rightAnkle"@ {
        Some(JointType::RightAnkle)
    } else if s == "rightFoot"@ {
        Some(JointType::RightFoot)
    } else {
        None
    }
}

impl JointType {
    /// The joint's canonical text name.
    pub fn name(&self) -> (r: String)
        ensures
            r@ == joint_name_spec(*self),
    {
        match self {
            JointType::Reserved => "none".to_owned(),
            JointType::Head => "head".to_owned(),
            JointType::Neck => "neck".to_owned(),
            JointType::Torso => "torso".to_owned(),
            JointType::Waist => "waist".to_owned(),
            JointType::LeftCollar => "leftCollar".to_owned(),
            JointType::LeftShoulder => "leftShoulder".to_owned(),
            JointType::LeftElbow => "leftElbow".to_owned(),
            JointType::LeftWrist => "leftWrist".to_owned(),
            JointType::LeftHand => "leftHand".to_owned(),
            JointType::LeftFingertip => "leftFingertip".to_owned(),
            JointType::RightCollar => "rightCollar".to_owned(),
            JointType::RightShoulder => "rightShoulder".to_owned(),
            JointType::RightElbow => "rightElbow".to_owned(),
            JointType::RightWrist => "rightWrist".to_owned(),
            JointType::RightHand => "rightHand".to_owned(),
            JointType::RightFingertip => "rightFingertip".to_owned(),
            JointType::LeftHip => "leftHip".to_owned(),
            JointType::LeftKnee => "leftKnee".to_owned(),
            JointType::LeftAnkle => "leftAnkle".to_owned(),
            JointType::LeftFoot => "leftFoot".to_owned(),
            JointType::RightHip => "rightHip".to_owned(),
            JointType::RightKnee => "rightKnee".to_owned(),
            JointType::RightAnkle => "rightAnkle".to_owned(),
            JointType::RightFoot => "rightFoot".to_owned(),
        }
    }

    /// Parses a canonical joint name; an unknown name is `None`, not a
    /// guess.
    pub fn from_name(s: &str) -> (r: Option<JointType>)
        ensures
            r == joint_from_name_spec(s@),
            match r {
                Option::Some(jt) => s@ == joint_name_spec(jt),
                Option::None => forall|jt: JointType| s@ != joint_name_spec(jt),
            },
    {
        if str_eq(s, "none") {
            Some(JointType::Reserved)
        } else if str_eq(s, "head") {
            Some(JointType::Head)
        } else if str_eq(s, "neck") {
            Some(JointType::Neck)
        } else if str_eq(s, "torso") {
            Some(JointType::Torso)
        } else if str_eq(s, "waist") {
            Some(JointType::Waist)
        } else if str_eq(s, "leftCollar") {
            Some(JointType::LeftCollar)
        } else if str_eq(s, "leftShoulder") {
            Some(JointType::LeftShoulder)
        } else if str_eq(s, "leftElbow") {
            Some(JointType::LeftElbow)
        } else if str_eq(s, "leftWrist") {
            Some(JointType::LeftWrist)
        } else if str_eq(s, "leftHand") {
            Some(JointType::LeftHand)
        } else if str_eq(s, "leftFingertip") {
            Some(JointType::LeftFingertip)
        } else if str_eq(s, "rightCollar") {
            Some(JointType::RightCollar)
        } else if str_eq(s, "rightShoulder") {
            Some(JointType::RightShoulder)
        } else if str_eq(s, "rightElbow") {
            Some(JointType::RightElbow)
        } else if str_eq(s, "rightWrist") {
            Some(JointType::RightWrist)
        } else if str_eq(s, "rightHand") {
            Some(JointType::RightHand)
        } else if str_eq(s, "rightFingertip") {
            Some(JointType::RightFingertip)
        } else if str_eq(s, "leftHip") {
            Some(JointType::LeftHip)
        } else if str_eq(s, "leftKnee") {
            Some(JointType::LeftKnee)
        } else if str_eq(s, "leftAnkle") {
            Some(JointType::LeftAnkle)
        } else if str_eq(s, "leftFoot") {
            Some(JointType::LeftFoot)
        } else if str_eq(s, "rightHip") {
            Some(JointType::RightHip)
        } else if str_eq(s, "rightKnee") {
            Some(JointType::RightKnee)
        } else if str_eq(s, "rightAnkle") {
            Some(JointType::RightAnkle)
        } else if str_eq(s, "rightFoot") {
            Some(JointType::RightFoot)
        } else {
            None
        }
    }
}

/// Whether two strings hold the same characters.
fn str_eq(a: &str, b: &str) -> (r: bool)
    ensures
        r == (a@ == b@),
{
    let sa = a.to_owned();
    let sb = b.to_owned();
    sa.eq(&sb)
}

/// Round trip of the joint-name encoding: the name written for any joint
/// parses back to exactly that joint.
#[verifier::rlimit(100)]
pub proof fn lemma_joint_name_round_trip(jt: JointType)
    ensures
        joint_from_name_spec(joint_name_spec(jt)) == Some(jt),
{
    reveal_strlit("none");
    reveal_strlit("head");
    reveal_strlit("neck");
    reveal_strlit("torso");
    reveal_strlit("waist");
    reveal_strlit("leftCollar");
    reveal_strlit("leftShoulder");
    reveal_strlit("leftElbow");
    reveal_strlit("leftWrist");
    reveal_strlit("leftHand");
    reveal_strlit("leftFingertip");
    reveal_strlit("rightCollar");
    reveal_strlit("rightShoulder");
    reveal_strlit("rightElbow");
    reveal_strlit("rightWrist");
    reveal_strlit("rightHand");
    reveal_strlit("rightFingertip");
    reveal_strlit("leftHip");
    reveal_strlit("leftKnee");
    reveal_strlit("leftAnkle");
    reveal_strlit("leftFoot");
    reveal_strlit("rightHip");
    reveal_strlit("rightKnee");
    reveal_strlit("rightAnkle");
    reveal_strlit("rightFoot");
    assert("none"@ =~= seq!['n', 'o', 'n', 'e']);
    assert("head"@ =~= seq!['h', 'e', 'a', 'd']);
    assert("neck"@ =~= seq!['n', 'e', 'c', 'k']);
    assert("torso"@ =~= seq!['t', 'o', 'r', 's', 'o']);
    assert("waist"@ =~= seq!['w', 'a', 'i', 's', 't']);
    assert("leftCollar"@ =~= seq!['l', 'e', 'f', 't', 'C', 'o', 'l', 'l', 'a', 'r']);
    assert("leftShoulder"@ =~= seq!['l', 'e', 'f', 't', 'S', 'h', 'o', 'u', 'l', 'd', 'e', 'r']);
    assert("leftElbow"@ =~= seq!['l', 'e', 'f', 't', 'E', 'l', 'b', 'o', 'w']);
    assert("leftWrist"@ =~= seq!['l', 'e', 'f', 't', 'W', 'r', 'i', 's', 't']);
    assert("leftHand"@ =~= seq!['l', 'e', 'f', 't', 'H', 'a', 'n', 'd']);
    assert("leftFingertip"@ =~= seq!['l', 'e', 'f', 't', 'F', 'i', 'n', 'g', 'e', 'r', 't', 'i', 'p']);
    assert("rightCollar"@ =~= seq!['r', 'i', 'g', 'h', 't', 'C', 'o', 'l', 'l', 'a', 'r']);
    assert("rightShoulder"@ =~= seq!['r', 'i', 'g', 'h', 't', 'S', 'h', 'o', 'u', 'l', 'd', 'e', 'r']);
    assert("rightElbow"@ =~= seq!['r', 'i', 'g', 'h', 't', 'E', 'l', 'b', 'o', 'w']);
    assert("rightWrist"@ =~= seq!['r', 'i', 'g', 'h', 't', 'W', 'r', 'i', 's', 't']);
    assert("rightHand"@ =~= seq!['r', 'i', 'g', 'h', 't', 'H', 'a', 'n', 'd']);
    assert("rightFingertip"@ =~= seq!['r', 'i', 'g', 'h', 't', 'F', 'i', 'n', 'g', 'e', 'r', 't', 'i', 'p']);
    assert("leftHip"@ =~= seq!['l', 'e', 'f', 't', 'H', 'i', 'p']);
    assert("leftKnee"@ =~= seq!['l', 'e', 'f', 't', 'K', 'n', 'e', 'e']);
    assert("leftAnkle"@ =~= seq!['l', 'e', 'f', 't', 'A', 'n', 'k', 'l', 'e']);
    assert("leftFoot"@ =~= seq!['l', 'e', 'f', 't', 'F', 'o', 'o', 't']);
    assert("rightHip"@ =~= seq!['r', 'i', 'g', 'h', 't', 'H', 'i', 'p']);
    assert("rightKnee"@ =~= seq!['r', 'i', 'g', 'h', 't', 'K', 'n', 'e', 'e']);
    assert("rightAnkle"@ =~= seq!['r', 'i', 'g', 'h', 't', 'A', 'n', 'k', 'l', 'e']);
    assert("rightFoot"@ =~= seq!['r', 'i', 'g', 'h', 't', 'F', 'o', 'o', 't']);
    match jt {
        JointType::Reserved => assert(joint_from_name_spec("none"@) == Some(JointType::Reserved)),
        JointType::Head => assert(joint_from_name_spec("head"@) == Some(JointType::Head)),
        JointType::Neck => assert(joint_from_name_spec("neck"@) == Some(JointType::Neck)),
        JointType::Torso => assert(joint_from_name_spec("torso"@) == Some(JointType::Torso)),
        JointType::Waist => assert(joint_from_name_spec("waist"@) == Some(JointType::Waist)),
        JointType::LeftCollar => assert(joint_from_name_spec("leftCollar"@) == Some(
            JointType::LeftCollar,
        )),
        JointType::LeftShoulder => assert(joint_from_name_spec("leftShoulder"@) == Some(
            JointType::LeftShoulder,
        )),
        JointType::LeftElbow => assert(joint_from_name_spec("leftElbow"@) == Some(
            JointType::LeftElbow,
        )),
        JointType::LeftWrist => assert(joint_from_name_spec("leftWrist"@) == Some(
            JointType::LeftWrist,
        )),
        JointType::LeftHand => assert(joint_from_name_spec("leftHand"@) == Some(
            JointType::LeftHand,
        )),
        JointType::LeftFingertip => assert(joint_from_name_spec("leftFingertip"@) == Some(
            JointType::LeftFingertip,
        )),
        JointType::RightCollar => assert(joint_from_name_spec("rightCollar"@) == Some(
            JointType::RightCollar,
        )),
        JointType::RightShoulder => assert(joint_from_name_spec("rightShoulder"@) == Some(
            JointType::RightShoulder,
        )),
        JointType::RightElbow => assert(joint_from_name_spec("rightElbow"@) == Some(
            JointType::RightElbow,
        )),
        JointType::RightWrist => assert(joint_from_name_spec("rightWrist"@) == Some(
            JointType::RightWrist,
        )),
        JointType::RightHand => assert(joint_from_name_spec("rightHand"@) == Some(
            JointType::RightHand,
        )),
        JointType::RightFingertip => assert(joint_from_name_spec("rightFingertip"@) == Some(
            JointType::RightFingertip,
        )),
        JointType::LeftHip => assert(joint_from_name_spec("leftHip"@) == Some(JointType::LeftHip)),
        JointType::LeftKnee => assert(joint_from_name_spec("leftKnee"@) == Some(
            JointType::LeftKnee,
        )),
        JointType::LeftAnkle => assert(joint_from_name_spec("leftAnkle"@) == Some(
            JointType::LeftAnkle,
        )),
        JointType::LeftFoot => assert(joint_from_name_spec("leftFoot"@) == Some(
            JointType::LeftFoot,
        )),
        JointType::RightHip => assert(joint_from_name_spec("rightHip"@) == Some(
            JointType::RightHip,
        )),
        JointType::RightKnee => assert(joint_from_name_spec("rightKnee"@) == Some(
            JointType::RightKnee,
        )),
        JointType::RightAnkle => assert(joint_from_name_spec("rightAnkle"@) == Some(
            JointType::RightAnkle,
        )),
        JointType::RightFoot => assert(joint_from_name_spec("rightFoot"@) == Some(
            JointType::RightFoot,
        )),
    }
}

/// Joint names are distinct: two joints with the same name are the same
/// joint.
pub proof fn lemma_joint_name_injective(a: JointType, b: JointType)
    requires
        joint_name_spec(a) == joint_name_spec(b),
    ensures
        a == b,
{
    lemma_joint_name_round_trip(a);
    lemma_joint_name_round_trip(b);
}

} // verus!
