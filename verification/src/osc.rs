use vstd::prelude::*;

use crate::text::same_text;

verus! {

/// The name under which the service that receives the user camera parameters registers.
pub const SERVICE_NAME: &'static str = "NickUserCameraPose";

/// OSC address of the user camera pose, a message of six floats.
pub const USER_CAMERA_POSE_ADDRESS: &'static str = "/usercamera/Pose";

/// The OSCQuery service name pattern of VRChat clients.
pub const VRCHAT_CLIENT_SERVICE: &'static str = "VRChat-Client-*";

/// OSC address of the user camera mode.
pub const USER_CAMERA_MODE_ADDRESS: &'static str = "/usercamera/Mode";

/// OSC address of the user camera streaming flag.
pub const USER_CAMERA_STREAMING_ADDRESS: &'static str = "/usercamera/Streaming";

/// The user camera mode that VRChat uses for streaming.
pub const USER_CAMERA_STREAM_MODE: i32 = 2;

/// An OSC message argument, as far as the user camera reads it; a float is given by its
/// IEEE 754 bits.
#[derive(Debug, PartialEq, Eq)]
pub enum OscArgument {
    Int(i32),
    Float(u32),
    String(String),
    Bool(bool),
    Other,
}

/// A value of an OSCQuery parameter, as far as the user camera reads it; a float is
/// given by its IEEE 754 bits.
#[derive(Debug, PartialEq, Eq)]
pub enum ParameterValue {
    Int(i32),
    Float(u64),
    String(String),
    Bool(bool),
    Other,
}

/// A message on one of the user camera addresses, or none of them.
#[derive(Clone, Copy, Debug, PartialEq, Eq, Structural)]
pub enum UserCameraMessage {
    /// A pose of six floats, given by their bits.
    Pose(u32, u32, u32, u32, u32, u32),
    /// A pose message whose arguments are not six floats.
    MalformedPose,
    /// The camera mode.
    Mode(i32),
    /// A mode message whose arguments are not one integer.
    MalformedMode,
    /// The streaming flag.
    Streaming(bool),
    /// A streaming message whose arguments are not one boolean.
    MalformedStreaming,
    /// A message on another address.
    Ignored,
}

/// An OSC message that prepares the user camera for streaming.
#[derive(Clone, Copy, Debug, PartialEq, Eq, Structural)]
pub enum StreamCommand {
    /// Switch the camera to the streaming mode.
    SelectStreamMode,
    /// Turn streaming on.
    EnableStreaming,
}

/// What a message on `address` with these arguments means for the user camera.
pub open spec fn user_camera_message(address: Seq<char>, args: Seq<OscArgument>) -> UserCameraMessage {
    if address == USER_CAMERA_POSE_ADDRESS@ {
        if args.len() == 6 && (forall|i: int| 0 <= i < 6 ==> (#[trigger] args[i]) is Float) {
            UserCameraMessage::Pose(
                args[0]->Float_0,
                args[1]->Float_0,
                args[2]->Float_0,
                args[3]->Float_0,
                args[4]->Float_0,
                args[5]->Float_0,
            )
        } else {
            UserCameraMessage::MalformedPose
        }
    } else if address == USER_CAMERA_MODE_ADDRESS@ {
        if args.len() == 1 && args[0] is Int {
            UserCameraMessage::Mode(args[0]->Int_0)
        } else {
            UserCameraMessage::MalformedMode
        }
    } else if address == USER_CAMERA_STREAMING_ADDRESS@ {
        if args.len() == 1 && args[0] is Bool {
            UserCameraMessage::Streaming(args[0]->Bool_0)
        } else {
            UserCameraMessage::MalformedStreaming
        }
    } else {
        UserCameraMessage::Ignored
    }
}

/// Reads a message that VRChat sent to the user camera service.
pub fn read_user_camera_message(address: &str, args: &Vec<OscArgument>) -> (message: UserCameraMessage)
    ensures
        message == user_camera_message(address@, args@),
{
    if same_text(address, USER_CAMERA_POSE_ADDRESS) {
        if args.len() == 6 {
            match (&args[0], &args[1], &args[2], &args[3], &args[4], &args[5]) {
                (
                    OscArgument::Float(a),
                    OscArgument::Float(b),
                    OscArgument::Float(c),
                    OscArgument::Float(d),
                    OscArgument::Float(e),
                    OscArgument::Float(f),
                ) => {
                    return UserCameraMessage::Pose(*a, *b, *c, *d, *e, *f);
                },
                _ => {
                    proof {
                        let k = if !(args@[0] is Float) { 0int } else if !(args@[1] is Float) { 1int
                        } else if !(args@[2] is Float) { 2int } else if !(args@[3] is Float) { 3int
                        } else if !(args@[4] is Float) { 4int } else { 5int };
                        assert(!(args@[k] is Float));
                    }
                    return UserCameraMessage::MalformedPose;
                },
            }
        }
        UserCameraMessage::MalformedPose
    } else if same_text(address, USER_CAMERA_MODE_ADDRESS) {
        if args.len() == 1 {
            if let OscArgument::Int(mode) = &args[0] {
                return UserCameraMessage::Mode(*mode);
            }
        }
        UserCameraMessage::MalformedMode
    } else if same_text(address, USER_CAMERA_STREAMING_ADDRESS) {
        if args.len() == 1 {
            if let OscArgument::Bool(streaming) = &args[0] {
                return UserCameraMessage::Streaming(*streaming);
            }
        }
        UserCameraMessage::MalformedStreaming
    } else {
        UserCameraMessage::Ignored
    }
}

impl StreamCommand {
    /// The address the command is sent to.
    pub fn address(&self) -> (address: &'static str)
        ensures
            address@ == match self {
                StreamCommand::SelectStreamMode => USER_CAMERA_MODE_ADDRESS@,
                StreamCommand::EnableStreaming => USER_CAMERA_STREAMING_ADDRESS@,
            },
    {
        match self {
            StreamCommand::SelectStreamMode => USER_CAMERA_MODE_ADDRESS,
            StreamCommand::EnableStreaming => USER_CAMERA_STREAMING_ADDRESS,
        }
    }

    /// The single argument of the command.
    pub fn argument(&self) -> (argument: OscArgument)
        ensures
            argument == match self {
                StreamCommand::SelectStreamMode => OscArgument::Int(USER_CAMERA_STREAM_MODE),
                StreamCommand::EnableStreaming => OscArgument::Bool(true),
            },
    {
        match self {
            StreamCommand::SelectStreamMode => OscArgument::Int(USER_CAMERA_STREAM_MODE),
            StreamCommand::EnableStreaming => OscArgument::Bool(true),
        }
    }
}

/// The first value of a parameter, where it has one.
pub open spec fn first_value(values: Option<Seq<ParameterValue>>) -> Option<ParameterValue> {
    match values {
        Some(values) => if values.len() > 0 {
            Some(values[0])
        } else {
            None
        },
        None => None,
    }
}

/// The values of an optional parameter as a sequence.
pub open spec fn values_view(values: Option<Vec<ParameterValue>>) -> Option<Seq<ParameterValue>> {
    match values {
        Some(values) => Some(values@),
        None => None,
    }
}

/// The last known user camera mode and streaming flag reported by VRChat.
/// `None` means that VRChat has not reported the value yet.
pub struct CameraStreamState {
    pub mode: Option<i32>,
    pub streaming: Option<bool>,
}

impl Default for CameraStreamState {
    /// A state with nothing reported yet.
    fn default() -> (state: Self)
        ensures
            state.mode is None,
            state.streaming is None,
    {
        CameraStreamState { mode: None, streaming: None }
    }
}

impl CameraStreamState {
    /// A state with nothing reported yet.
    pub fn new() -> (state: Self)
        ensures
            state.mode is None,
            state.streaming is None,
    {
        CameraStreamState { mode: None, streaming: None }
    }

    /// Whether VRChat last reported the streaming camera mode.
    pub fn mode_is_stream(&self) -> (res: bool)
        ensures
            res == (self.mode == Some(USER_CAMERA_STREAM_MODE)),
    {
        match self.mode {
            Some(mode) => mode == USER_CAMERA_STREAM_MODE,
            None => false,
        }
    }

    /// Whether VRChat last reported that streaming is on.
    pub fn streaming_is_enabled(&self) -> (res: bool)
        ensures
            res == (self.streaming == Some(true)),
    {
        match self.streaming {
            Some(streaming) => streaming,
            None => false,
        }
    }

    /// Records the camera mode that VRChat reported.
    pub fn update_mode(&mut self, mode: i32)
        ensures
            final(self).mode == Some(mode),
            final(self).streaming == old(self).streaming,
    {
        self.mode = Some(mode);
    }

    /// The commands that prepare the camera for streaming, in the order they are sent:
    /// the mode unless the stream mode is known to be selected, then streaming unless it
    /// is known to be on.
    pub open spec fn stream_setup(self) -> Seq<StreamCommand> {
        (if self.mode == Some(USER_CAMERA_STREAM_MODE) {
            Seq::empty()
        } else {
            seq![StreamCommand::SelectStreamMode]
        }) + (if self.streaming == Some(true) {
            Seq::empty()
        } else {
            seq![StreamCommand::EnableStreaming]
        })
    }

    /// The state after a message on a user camera address: a mode or streaming message
    /// records what it reports; any other message leaves the state as it is.
    pub open spec fn after_message(self, message: UserCameraMessage) -> Self {
        match message {
            UserCameraMessage::Mode(mode) => CameraStreamState { mode: Some(mode), ..self },
            UserCameraMessage::Streaming(streaming) => CameraStreamState {
                streaming: Some(streaming),
                ..self
            },
            _ => self,
        }
    }

    /// Decides which commands to send so that VRChat streams the user camera.
    pub fn stream_setup_commands(&self) -> (commands: Vec<StreamCommand>)
        ensures
            commands@ == self.stream_setup(),
    {
        let mut commands: Vec<StreamCommand> = Vec::new();
        if !self.mode_is_stream() {
            commands.push(StreamCommand::SelectStreamMode);
        }
        if !self.streaming_is_enabled() {
            commands.push(StreamCommand::EnableStreaming);
        }
        proof {
            assert(commands@ =~= self.stream_setup());
        }
        commands
    }

    /// Reads a message that VRChat sent to the user camera service and records the mode
    /// or streaming flag it reports.
    pub fn receive_message(&mut self, address: &str, args: &Vec<OscArgument>) -> (message:
        UserCameraMessage)
        ensures
            message == user_camera_message(address@, args@),
            *final(self) == old(self).after_message(message),
    {
        let message = read_user_camera_message(address, args);
        match message {
            UserCameraMessage::Mode(mode) => self.update_mode(mode),
            UserCameraMessage::Streaming(streaming) => self.update_streaming(streaming),
            _ => {},
        }
        message
    }

    /// Records the mode and streaming flag that the "/usercamera" node reports, given the
    /// values of its "Mode" and "Streaming" children (`None` where a child is missing or
    /// has no value): a first value of the right kind replaces what was known.
    pub fn update_from_node(
        &mut self,
        mode_values: Option<Vec<ParameterValue>>,
        streaming_values: Option<Vec<ParameterValue>>,
    )
        ensures
            final(self).mode == match first_value(values_view(mode_values)) {
                Some(ParameterValue::Int(mode)) => Some(mode),
                _ => old(self).mode,
            },
            final(self).streaming == match first_value(values_view(streaming_values)) {
                Some(ParameterValue::Bool(streaming)) => Some(streaming),
                _ => old(self).streaming,
            },
    {
        if let Some(values) = &mode_values {
            if values.len() > 0 {
                if let ParameterValue::Int(mode) = &values[0] {
                    self.update_mode(*mode);
                }
            }
        }
        if let Some(values) = &streaming_values {
            if values.len() > 0 {
                if let ParameterValue::Bool(streaming) = &values[0] {
                    self.update_streaming(*streaming);
                }
            }
        }
    }

    /// Records the streaming flag that VRChat reported.
    pub fn update_streaming(&mut self, streaming: bool)
        ensures
            final(self).streaming == Some(streaming),
            final(self).mode == old(self).mode,
    {
        self.streaming = Some(streaming);
    }
}

/// Once VRChat has reported the stream mode and streaming on, in either order, preparing
/// the camera for streaming sends nothing.
pub proof fn law_reported_stream_needs_no_setup(state: CameraStreamState)
    ensures
        state.after_message(
            user_camera_message(USER_CAMERA_MODE_ADDRESS@, seq![OscArgument::Int(USER_CAMERA_STREAM_MODE)]),
        ).after_message(
            user_camera_message(USER_CAMERA_STREAMING_ADDRESS@, seq![OscArgument::Bool(true)]),
        ).stream_setup().len() == 0,
        state.after_message(
            user_camera_message(USER_CAMERA_STREAMING_ADDRESS@, seq![OscArgument::Bool(true)]),
        ).after_message(
            user_camera_message(USER_CAMERA_MODE_ADDRESS@, seq![OscArgument::Int(USER_CAMERA_STREAM_MODE)]),
        ).stream_setup().len() == 0,
{
    reveal_strlit("/usercamera/Pose");
    reveal_strlit("/usercamera/Mode");
    reveal_strlit("/usercamera/Streaming");
    assert(USER_CAMERA_MODE_ADDRESS@[12] != USER_CAMERA_POSE_ADDRESS@[12]);
    assert(USER_CAMERA_STREAMING_ADDRESS@[12] != USER_CAMERA_POSE_ADDRESS@[12]);
    assert(USER_CAMERA_STREAMING_ADDRESS@ != USER_CAMERA_MODE_ADDRESS@);
}

/// A message on one user camera address never changes what is known from the other:
/// a mode message keeps the streaming flag, a streaming message keeps the mode, and a
/// pose or malformed message keeps both.
pub proof fn law_messages_touch_only_their_field(state: CameraStreamState, message: UserCameraMessage)
    ensures
        !(message is Mode) ==> state.after_message(message).mode == state.mode,
        !(message is Streaming) ==> state.after_message(message).streaming == state.streaming,
{
}

/// Setup never asks for what VRChat already reported: the mode command is sent exactly
/// when the stream mode is not known to be selected, the streaming command exactly when
/// streaming is not known to be on, and the mode command comes first.
pub proof fn law_setup_sends_only_what_is_missing(state: CameraStreamState)
    ensures
        state.stream_setup().contains(StreamCommand::SelectStreamMode) <==> state.mode != Some(
            USER_CAMERA_STREAM_MODE,
        ),
        state.stream_setup().contains(StreamCommand::EnableStreaming) <==> state.streaming != Some(
            true,
        ),
        state.stream_setup().len() == 2 ==> state.stream_setup()[0]
            == StreamCommand::SelectStreamMode,
{
    let setup = state.stream_setup();
    if state.mode != Some(USER_CAMERA_STREAM_MODE) {
        assert(setup[0] == StreamCommand::SelectStreamMode);
    }
    if state.streaming != Some(true) {
        assert(setup[setup.len() - 1] == StreamCommand::EnableStreaming);
    }
}


/// VRChat's user camera messages are read as what they report: six floats on the pose
/// address as a pose of those floats in order, one integer on the mode address as that
/// mode, and one boolean on the streaming address as that flag, whatever their values;
/// a mode or streaming message without exactly one argument is malformed, and a message
/// on any other address is ignored.
pub proof fn law_messages_read_what_they_report(
    mode: i32,
    streaming: bool,
    pose: (u32, u32, u32, u32, u32, u32),
)
    ensures
        user_camera_message(USER_CAMERA_MODE_ADDRESS@, seq![OscArgument::Int(mode)])
            == UserCameraMessage::Mode(mode),
        user_camera_message(USER_CAMERA_STREAMING_ADDRESS@, seq![OscArgument::Bool(streaming)])
            == UserCameraMessage::Streaming(streaming),
        user_camera_message(
            USER_CAMERA_POSE_ADDRESS@,
            seq![
                OscArgument::Float(pose.0),
                OscArgument::Float(pose.1),
                OscArgument::Float(pose.2),
                OscArgument::Float(pose.3),
                OscArgument::Float(pose.4),
                OscArgument::Float(pose.5),
            ],
        ) == UserCameraMessage::Pose(pose.0, pose.1, pose.2, pose.3, pose.4, pose.5),
        forall|args: Seq<OscArgument>|
            args.len() != 1 ==> #[trigger] user_camera_message(USER_CAMERA_MODE_ADDRESS@, args)
                == UserCameraMessage::MalformedMode && user_camera_message(
                USER_CAMERA_STREAMING_ADDRESS@,
                args,
            ) == UserCameraMessage::MalformedStreaming,
        forall|address: Seq<char>, args: Seq<OscArgument>|
            address != USER_CAMERA_POSE_ADDRESS@ && address != USER_CAMERA_MODE_ADDRESS@ && address
                != USER_CAMERA_STREAMING_ADDRESS@ ==> #[trigger] user_camera_message(address, args)
                == UserCameraMessage::Ignored,
{
    reveal_strlit("/usercamera/Pose");
    reveal_strlit("/usercamera/Mode");
    reveal_strlit("/usercamera/Streaming");
    assert(USER_CAMERA_MODE_ADDRESS@[12] != USER_CAMERA_POSE_ADDRESS@[12]);
    assert(USER_CAMERA_STREAMING_ADDRESS@[12] != USER_CAMERA_POSE_ADDRESS@[12]);
    assert(USER_CAMERA_STREAMING_ADDRESS@ != USER_CAMERA_MODE_ADDRESS@);
    let args = seq![
        OscArgument::Float(pose.0),
        OscArgument::Float(pose.1),
        OscArgument::Float(pose.2),
        OscArgument::Float(pose.3),
        OscArgument::Float(pose.4),
        OscArgument::Float(pose.5),
    ];
    assert(forall|i: int| 0 <= i < 6 ==> (#[trigger] args[i]) is Float);
}

/// What VRChat reports last is what is known: after a mode message the mode is the one
/// it reports and after a streaming message the flag is the one it reports, whatever the
/// state before and whatever the value; so the stream mode is selected again after any
/// other mode was reported, and streaming is enabled again after it was reported off.
pub proof fn law_last_report_wins(state: CameraStreamState, mode: i32, streaming: bool)
    ensures
        state.after_message(UserCameraMessage::Mode(mode)).mode == Some(mode),
        state.after_message(UserCameraMessage::Streaming(streaming)).streaming == Some(streaming),
        mode != USER_CAMERA_STREAM_MODE ==> state.after_message(
            UserCameraMessage::Mode(mode),
        ).stream_setup()[0] == StreamCommand::SelectStreamMode,
        !streaming ==> state.after_message(UserCameraMessage::Streaming(streaming)).stream_setup().last()
            == StreamCommand::EnableStreaming,
{
    law_setup_sends_only_what_is_missing(state.after_message(UserCameraMessage::Mode(mode)));
    law_setup_sends_only_what_is_missing(
        state.after_message(UserCameraMessage::Streaming(streaming)),
    );
}

} // verus!
