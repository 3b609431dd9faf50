use vstd::prelude::*;

use crate::osc::USER_CAMERA_POSE_ADDRESS;
use crate::parameters::SendError;
use crate::text::same_text;

verus! {

/// The OSC address of a parameter named by the path of an `/osc/...` request.
pub fn parameter_address(path: &str) -> (address: String)
    ensures
        address@ == seq!['/'] + path@,
{
    proof {
        reveal_strlit("/");
    }
    String::from_str("/").concat(path)
}

/// Whether an OSC address is the user camera pose, which the parameter routes do not
/// query or write: it is read from the pose state and set through `/usercamera/pose`.
pub fn is_user_camera_pose(address: &str) -> (res: bool)
    ensures
        res == (address@ == USER_CAMERA_POSE_ADDRESS@),
{
    same_text(address, USER_CAMERA_POSE_ADDRESS)
}

/// The HTTP status that answers a parameter that could not be set.
pub open spec fn send_error_status_spec(error: SendError) -> u16 {
    match error {
        SendError::NotFound => 404,
        SendError::UnsupportedType | SendError::InvalidValue(_) => 422,
        SendError::Query(_) | SendError::Send(_) => 502,
    }
}

/// The HTTP status that answers a parameter that could not be set.
pub fn send_error_status(error: &SendError) -> (status: u16)
    ensures
        status == send_error_status_spec(*error),
{
    match error {
        SendError::NotFound => 404,
        SendError::UnsupportedType | SendError::InvalidValue(_) => 422,
        SendError::Query(_) | SendError::Send(_) => 502,
    }
}

/// A request that the API answers with an error status and message.
#[derive(Clone, Copy, Debug, PartialEq, Eq, Structural)]
pub enum ApiFailure {
    /// Querying VRChat's parameter tree failed.
    ParametersQueryFailed,
    /// No VRChat OSCQuery service answered.
    OscQueryUnavailable,
    /// The user camera pose could not be serialized.
    PoseSerializationFailed,
    /// Querying one parameter failed.
    ParameterQueryFailed,
    /// The parameter is not in VRChat's tree.
    ParameterNotFound,
    /// The parameter's value could not be serialized.
    ParameterSerializationFailed,
    /// The parameter has no value.
    ParameterWithoutValue,
    /// The pose was to be written through the parameter route.
    PoseWriteForbidden,
    /// The camera could not be switched to streaming.
    StreamSetupFailed,
    /// The camera could not be moved to the requested pose.
    CameraMoveFailed,
    /// Spout gave no frame.
    FrameUnavailable,
}

impl ApiFailure {
    /// The HTTP status of the answer.
    pub open spec fn status_spec(self) -> u16 {
        match self {
            ApiFailure::ParametersQueryFailed => 502,
            ApiFailure::OscQueryUnavailable => 503,
            ApiFailure::PoseSerializationFailed => 500,
            ApiFailure::ParameterQueryFailed => 502,
            ApiFailure::ParameterNotFound => 404,
            ApiFailure::ParameterSerializationFailed => 502,
            ApiFailure::ParameterWithoutValue => 404,
            ApiFailure::PoseWriteForbidden => 403,
            ApiFailure::StreamSetupFailed => 502,
            ApiFailure::CameraMoveFailed => 502,
            ApiFailure::FrameUnavailable => 503,
        }
    }

    /// The HTTP status of the answer.
    pub fn status(&self) -> (status: u16)
        ensures
            status == self.status_spec(),
    {
        match self {
            ApiFailure::ParametersQueryFailed => 502,
            ApiFailure::OscQueryUnavailable => 503,
            ApiFailure::PoseSerializationFailed => 500,
            ApiFailure::ParameterQueryFailed => 502,
            ApiFailure::ParameterNotFound => 404,
            ApiFailure::ParameterSerializationFailed => 502,
            ApiFailure::ParameterWithoutValue => 404,
            ApiFailure::PoseWriteForbidden => 403,
            ApiFailure::StreamSetupFailed => 502,
            ApiFailure::CameraMoveFailed => 502,
            ApiFailure::FrameUnavailable => 503,
        }
    }

    /// The text of the answer.
    pub fn message(&self) -> (message: &'static str)
        ensures
            message@ == match self {
                ApiFailure::ParametersQueryFailed => "unable to query VRChat parameters"@,
                ApiFailure::OscQueryUnavailable => "VRChat's OSCQuery service is unavailable"@,
                ApiFailure::PoseSerializationFailed => "unable to serialize the user camera pose"@,
                ApiFailure::ParameterQueryFailed => "unable to query VRChat parameter"@,
                ApiFailure::ParameterNotFound => "parameter was not found"@,
                ApiFailure::ParameterSerializationFailed => "unable to serialize VRChat parameter"@,
                ApiFailure::ParameterWithoutValue => "parameter has no current value"@,
                ApiFailure::PoseWriteForbidden => "set the user camera pose through /usercamera/pose"@,
                ApiFailure::StreamSetupFailed => "unable to configure VRChat camera streaming"@,
                ApiFailure::CameraMoveFailed => "unable to move the VRChat camera"@,
                ApiFailure::FrameUnavailable => "Spout did not produce a camera frame"@,
            },
    {
        match self {
            ApiFailure::ParametersQueryFailed => "unable to query VRChat parameters",
            ApiFailure::OscQueryUnavailable => "VRChat's OSCQuery service is unavailable",
            ApiFailure::PoseSerializationFailed => "unable to serialize the user camera pose",
            ApiFailure::ParameterQueryFailed => "unable to query VRChat parameter",
            ApiFailure::ParameterNotFound => "parameter was not found",
            ApiFailure::ParameterSerializationFailed => "unable to serialize VRChat parameter",
            ApiFailure::ParameterWithoutValue => "parameter has no current value",
            ApiFailure::PoseWriteForbidden => "set the user camera pose through /usercamera/pose",
            ApiFailure::StreamSetupFailed => "unable to configure VRChat camera streaming",
            ApiFailure::CameraMoveFailed => "unable to move the VRChat camera",
            ApiFailure::FrameUnavailable => "Spout did not produce a camera frame",
        }
    }
}

/// A parameter route reaches the user camera pose exactly when its path is
/// "usercamera/Pose"; writing it there is refused with 403.
pub proof fn law_pose_route(path: Seq<char>)
    ensures
        (seq!['/'] + path == USER_CAMERA_POSE_ADDRESS@) <==> path == "usercamera/Pose"@,
        ApiFailure::PoseWriteForbidden.status_spec() == 403,
{
    reveal_strlit("/usercamera/Pose");
    reveal_strlit("usercamera/Pose");
    let address = seq!['/'] + path;
    if address == USER_CAMERA_POSE_ADDRESS@ {
        assert(path =~= address.drop_first());
        assert(path =~= "usercamera/Pose"@);
    }
    if path == "usercamera/Pose"@ {
        assert(address =~= USER_CAMERA_POSE_ADDRESS@);
    }
}

/// Each failure is answered with the status its route documents: a parameter that is not
/// in VRChat's tree or has no value is Not Found (404), as is a parameter to be set that is
/// not found, so reading and writing agree; writing the pose through the parameter route
/// is Forbidden (403); a body that does not fit the parameter is Unprocessable (422);
/// failing to talk to VRChat is Bad Gateway (502); no OSCQuery service or no Spout frame is
/// Service Unavailable (503); and a pose that cannot be serialized is an Internal Server
/// Error (500).
pub proof fn law_statuses_follow_the_routes(error: SendError)
    ensures
        ApiFailure::ParameterNotFound.status_spec() == 404,
        ApiFailure::ParameterWithoutValue.status_spec() == 404,
        ApiFailure::ParameterNotFound.status_spec() == send_error_status_spec(SendError::NotFound),
        ApiFailure::PoseWriteForbidden.status_spec() == 403,
        error is UnsupportedType || error is InvalidValue ==> send_error_status_spec(error) == 422,
        error is Query || error is Send ==> send_error_status_spec(error) == 502,
        ApiFailure::ParametersQueryFailed.status_spec() == 502,
        ApiFailure::ParameterQueryFailed.status_spec() == 502,
        ApiFailure::ParameterSerializationFailed.status_spec() == 502,
        ApiFailure::StreamSetupFailed.status_spec() == 502,
        ApiFailure::CameraMoveFailed.status_spec() == 502,
        ApiFailure::OscQueryUnavailable.status_spec() == 503,
        ApiFailure::FrameUnavailable.status_spec() == 503,
        ApiFailure::PoseSerializationFailed.status_spec() == 500,
{
}

/// What happened while streaming poses to a websocket client.
#[derive(Clone, Copy, Debug, PartialEq, Eq, Structural)]
pub enum PoseStreamEvent {
    /// A pose was sent to the client.
    Sent,
    /// A pose could not be serialized; it was not sent.
    NotSerialized,
    /// Sending to the client failed.
    SendFailed,
    /// The client fell behind and this many poses were skipped.
    Lagged(u64),
    /// No more poses will be published.
    Closed,
}

/// Whether the pose stream goes on after an event: it ends when the client cannot be
/// reached or no more poses come, and goes on past a pose that could not be serialized
/// and past skipped poses.
pub fn pose_stream_continues(event: PoseStreamEvent) -> (continues: bool)
    ensures
        continues == !(event == PoseStreamEvent::SendFailed || event == PoseStreamEvent::Closed),
{
    match event {
        PoseStreamEvent::SendFailed | PoseStreamEvent::Closed => false,
        _ => true,
    }
}

} // verus!
