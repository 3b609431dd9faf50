use usercamera_pose::api::{
    is_user_camera_pose, parameter_address, pose_stream_continues, send_error_status, ApiFailure,
    PoseStreamEvent,
};
use usercamera_pose::parameters::SendError;

#[test]
fn addresses_parameters_by_their_path() {
    assert_eq!(parameter_address("avatar/parameters/Smile"), "/avatar/parameters/Smile");
    assert_eq!(parameter_address(""), "/");
}

#[test]
fn recognizes_only_the_pose_address() {
    assert!(is_user_camera_pose(&parameter_address("usercamera/Pose")));
    assert!(!is_user_camera_pose(&parameter_address("usercamera/pose")));
    assert!(!is_user_camera_pose("/usercamera/Pose/"));
}

#[test]
fn answers_send_errors_with_their_status() {
    assert_eq!(send_error_status(&SendError::NotFound), 404);
    assert_eq!(send_error_status(&SendError::UnsupportedType), 422);
    assert_eq!(send_error_status(&SendError::InvalidValue("a string")), 422);
}

#[test]
fn answers_failures_with_documented_statuses() {
    assert_eq!(ApiFailure::PoseWriteForbidden.status(), 403);
    assert_eq!(
        ApiFailure::PoseWriteForbidden.message(),
        "set the user camera pose through /usercamera/pose"
    );
    assert_eq!(ApiFailure::OscQueryUnavailable.status(), 503);
    assert_eq!(ApiFailure::ParameterWithoutValue.status(), 404);
    assert_eq!(ApiFailure::ParameterWithoutValue.message(), "parameter has no current value");
    assert_eq!(ApiFailure::FrameUnavailable.status(), 503);
    assert_eq!(ApiFailure::CameraMoveFailed.status(), 502);
    assert_eq!(ApiFailure::PoseSerializationFailed.status(), 500);
}

#[test]
fn pose_stream_stops_only_when_the_client_or_publisher_is_gone() {
    assert!(pose_stream_continues(PoseStreamEvent::Sent));
    assert!(pose_stream_continues(PoseStreamEvent::NotSerialized));
    assert!(pose_stream_continues(PoseStreamEvent::Lagged(3)));
    assert!(!pose_stream_continues(PoseStreamEvent::SendFailed));
    assert!(!pose_stream_continues(PoseStreamEvent::Closed));
}
