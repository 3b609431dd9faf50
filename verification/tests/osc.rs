use usercamera_pose::osc::{
    read_user_camera_message, CameraStreamState, OscArgument, ParameterValue, StreamCommand,
    UserCameraMessage, USER_CAMERA_MODE_ADDRESS, USER_CAMERA_POSE_ADDRESS,
    USER_CAMERA_STREAMING_ADDRESS,
};

#[test]
fn unknown_state_is_neither_streaming_nor_in_stream_mode() {
    let state = CameraStreamState::new();
    assert!(!state.mode_is_stream());
    assert!(!state.streaming_is_enabled());
    assert_eq!(
        state.stream_setup_commands(),
        vec![StreamCommand::SelectStreamMode, StreamCommand::EnableStreaming]
    );
}

#[test]
fn updates_mode_and_streaming_separately() {
    let mut state = CameraStreamState::new();
    state.update_mode(2);
    assert!(state.mode_is_stream());
    assert!(!state.streaming_is_enabled());
    assert_eq!(state.stream_setup_commands(), vec![StreamCommand::EnableStreaming]);
    state.update_streaming(true);
    assert!(state.streaming_is_enabled());
    assert!(state.stream_setup_commands().is_empty());
    state.update_mode(1);
    assert!(!state.mode_is_stream());
    assert_eq!(state.stream_setup_commands(), vec![StreamCommand::SelectStreamMode]);
    state.update_streaming(false);
    assert_eq!(
        state.stream_setup_commands(),
        vec![StreamCommand::SelectStreamMode, StreamCommand::EnableStreaming]
    );
}

#[test]
fn stream_commands_name_their_address_and_argument() {
    assert_eq!(StreamCommand::SelectStreamMode.address(), "/usercamera/Mode");
    assert_eq!(StreamCommand::SelectStreamMode.argument(), OscArgument::Int(2));
    assert_eq!(StreamCommand::EnableStreaming.address(), "/usercamera/Streaming");
    assert_eq!(StreamCommand::EnableStreaming.argument(), OscArgument::Bool(true));
}

#[test]
fn reads_a_pose_of_six_floats() {
    let args: Vec<OscArgument> =
        [1.0f32, 2.0, 3.0, 4.0, 5.0, 6.0].iter().map(|f| OscArgument::Float(f.to_bits())).collect();
    let message = read_user_camera_message(USER_CAMERA_POSE_ADDRESS, &args);
    assert_eq!(
        message,
        UserCameraMessage::Pose(
            1.0f32.to_bits(),
            2.0f32.to_bits(),
            3.0f32.to_bits(),
            4.0f32.to_bits(),
            5.0f32.to_bits(),
            6.0f32.to_bits()
        )
    );
    let short: Vec<OscArgument> =
        [1.0f32, 2.0, 3.0, 4.0, 5.0].iter().map(|f| OscArgument::Float(f.to_bits())).collect();
    assert_eq!(read_user_camera_message(USER_CAMERA_POSE_ADDRESS, &short), UserCameraMessage::MalformedPose);
    let mut mixed = args;
    mixed[3] = OscArgument::Int(4);
    assert_eq!(read_user_camera_message(USER_CAMERA_POSE_ADDRESS, &mixed), UserCameraMessage::MalformedPose);
}

#[test]
fn records_mode_and_streaming_messages() {
    let mut state = CameraStreamState::new();
    assert_eq!(
        state.receive_message(USER_CAMERA_MODE_ADDRESS, &vec![OscArgument::Int(2)]),
        UserCameraMessage::Mode(2)
    );
    assert_eq!(state.mode, Some(2));
    assert_eq!(
        state.receive_message(USER_CAMERA_STREAMING_ADDRESS, &vec![OscArgument::Bool(true)]),
        UserCameraMessage::Streaming(true)
    );
    assert_eq!(state.streaming, Some(true));
    assert!(state.stream_setup_commands().is_empty());
    assert_eq!(
        state.receive_message(USER_CAMERA_MODE_ADDRESS, &vec![OscArgument::Bool(true)]),
        UserCameraMessage::MalformedMode
    );
    assert_eq!(
        state.receive_message(USER_CAMERA_STREAMING_ADDRESS, &vec![]),
        UserCameraMessage::MalformedStreaming
    );
    assert_eq!(
        state.receive_message("/usercamera/Zoom", &vec![OscArgument::Int(3)]),
        UserCameraMessage::Ignored
    );
    assert_eq!(state.mode, Some(2));
    assert_eq!(state.streaming, Some(true));
}

#[test]
fn reads_mode_and_streaming_from_the_camera_node() {
    let mut state = CameraStreamState::new();
    state.update_from_node(
        Some(vec![ParameterValue::Int(2), ParameterValue::Int(5)]),
        Some(vec![ParameterValue::Bool(false)]),
    );
    assert_eq!(state.mode, Some(2));
    assert_eq!(state.streaming, Some(false));
    state.update_from_node(Some(vec![ParameterValue::Bool(true)]), Some(vec![]));
    assert_eq!(state.mode, Some(2));
    assert_eq!(state.streaming, Some(false));
    state.update_from_node(None, Some(vec![ParameterValue::Bool(true)]));
    assert_eq!(state.mode, Some(2));
    assert_eq!(state.streaming, Some(true));
}
