use nuitrack_rs::accessors::{accessor_result, frame_from_payload};
use nuitrack_rs::frames::{DepthFrame, GestureFrame, RGBFrame, UserGesturesFrame, UserStateFrame};
use nuitrack_rs::{
    Color3, Gesture, GestureState, GestureType, JointType, NuitrackError, UserGestures, UserState,
    UserStateType,
};

#[test]
fn error_messages_name_the_condition() {
    assert_eq!(
        NuitrackError::NativeCallFailed("boom".to_string()).message(),
        "Nuitrack native call failed: boom"
    );
    assert_eq!(
        NuitrackError::AlreadyInitialized.message(),
        "Nuitrack already initialized by this wrapper."
    );
    assert_eq!(
        NuitrackError::InitFailed("no config".to_string()).message(),
        "Nuitrack initialization failed: no config"
    );
    assert_eq!(
        NuitrackError::DeviceError("not found".to_string()).message(),
        "Nuitrack device error: not found"
    );
    assert_eq!(
        NuitrackError::ModuleCreationFailed("factory".to_string()).message(),
        "Nuitrack module creation failed: factory"
    );
    assert_eq!(NuitrackError::NoDeviceFound.message(), "No Nuitrack device found");
    assert_eq!(
        NuitrackError::OperationFailed("poisoned".to_string()).message(),
        "Nuitrack operation failed: poisoned"
    );
}

#[test]
fn joint_names_round_trip() {
    let joints = [
        JointType::Reserved,
        JointType::Head,
        JointType::Neck,
        JointType::Torso,
        JointType::Waist,
        JointType::LeftCollar,
        JointType::LeftShoulder,
        JointType::LeftElbow,
        JointType::LeftWrist,
        JointType::LeftHand,
        JointType::LeftFingertip,
        JointType::RightCollar,
        JointType::RightShoulder,
        JointType::RightElbow,
        JointType::RightWrist,
        JointType::RightHand,
        JointType::RightFingertip,
        JointType::LeftHip,
        JointType::LeftKnee,
        JointType::LeftAnkle,
        JointType::LeftFoot,
        JointType::RightHip,
        JointType::RightKnee,
        JointType::RightAnkle,
        JointType::RightFoot,
    ];
    for jt in joints {
        let name = jt.name();
        assert_eq!(JointType::from_name(name.as_str()), Some(jt));
    }
    assert_eq!(JointType::Head.name(), "head");
    assert_eq!(JointType::Reserved.name(), "none");
    assert_eq!(JointType::RightFingertip.name(), "rightFingertip");
    assert_eq!(JointType::from_name("elbow"), None);
    assert_eq!(JointType::from_name("Head"), None);
    assert_eq!(JointType::from_name(""), None);
}

#[test]
fn user_gestures_carry_their_fields() {
    let gestures = vec![
        GestureState { gesture_type: GestureType::Waving, progress: 40 },
        GestureState { gesture_type: GestureType::Push, progress: 90 },
    ];
    let ug = UserGestures::from_ffi(6, UserStateType::Active, gestures.clone());
    assert_eq!(ug.user_id, 6);
    assert_eq!(ug.user_state, UserStateType::Active);
    assert_eq!(ug.gestures, gestures);
}

#[test]
fn frames_expose_what_they_were_built_from() {
    let depth = DepthFrame::new(2, 3, 77, 1_000, vec![1, 2, 3, 4, 5, 6]);
    assert_eq!(depth.rows(), 2);
    assert_eq!(depth.cols(), 3);
    assert_eq!(depth.frame_id(), 77);
    assert_eq!(depth.timestamp(), 1_000);
    assert_eq!(depth.data().len(), 6);

    let pixel = Color3 { blue: 1, green: 2, red: 3 };
    let rgb = RGBFrame::new(1, 1, 5, 2_000, vec![pixel]);
    assert_eq!(rgb.data()[0], pixel);
    assert_eq!(rgb.frame_id(), 5);

    let gesture = Gesture { user_id: 1, gesture_type: GestureType::SwipeLeft };
    let gf = GestureFrame::new(vec![gesture], 3_000);
    assert_eq!(gf.num_gestures(), 1);
    assert_eq!(gf.gestures()[0], gesture);
    assert_eq!(gf.timestamp(), 3_000);

    let usf = UserStateFrame::new(
        vec![UserState { user_id: 2, state: UserStateType::InScene }],
        4_000,
    );
    assert_eq!(usf.user_states().len(), 1);
    assert_eq!(usf.timestamp(), 4_000);

    let ugf = UserGesturesFrame::new(
        vec![UserGestures::from_ffi(2, UserStateType::InScene, Vec::new())],
        5_000,
    );
    assert_eq!(ugf.users().len(), 1);
    assert_eq!(ugf.timestamp(), 5_000);
}

#[test]
fn accessor_outcomes_pass_through_or_fail_loudly() {
    assert_eq!(accessor_result::<u64>(Ok(9)).unwrap(), 9);
    match accessor_result::<u64>(Err("tracker gone".to_string())) {
        Err(NuitrackError::OperationFailed(m)) => assert_eq!(m, "tracker gone"),
        other => panic!("expected OperationFailed, got {:?}", other),
    }

    assert_eq!(frame_from_payload(Some(1u32)).unwrap(), 1);
    assert!(matches!(
        frame_from_payload::<u32>(None),
        Err(NuitrackError::OperationFailed(_))
    ));
}
