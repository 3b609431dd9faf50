use vstd::prelude::*;

use crate::capture::CaptureError;

verus! {

/// Name of the Spout sender that VRChat publishes its camera on.
pub const VRC_SPOUT_SENDER: &'static str = "VRCSender1";

/// Size and DXGI format of the texture a Spout sender publishes.
#[derive(Clone, Copy, Debug, PartialEq, Eq, Structural)]
pub struct SenderTexture {
    pub width: u32,
    pub height: u32,
    pub format: u32,
}

/// The message of the error for a sender that is not published.
pub open spec fn sender_unavailable_message() -> Seq<char> {
    "VRChat's Spout sender is unavailable"@
}

/// The message of the error for a sender whose texture has no area.
pub open spec fn sender_without_dimensions_message() -> Seq<char> {
    "VRChat's Spout sender has no frame dimensions"@
}

/// Decides whether a reader can be opened on what the Spout directory reported for
/// VRChat's sender: it must be published and have a non-empty texture.
pub fn usable_sender_texture(info: Option<SenderTexture>) -> (res: Result<SenderTexture, CaptureError>)
    ensures
        info is None ==> (res matches Err(CaptureError::D3d(message)) && message@
            == sender_unavailable_message()),
        info is Some && (info->0.width == 0 || info->0.height == 0) ==> (res matches Err(
            CaptureError::D3d(message),
        ) && message@ == sender_without_dimensions_message()),
        info is Some && info->0.width > 0 && info->0.height > 0 ==> res == Ok::<
            SenderTexture,
            CaptureError,
        >(info->0),
{
    match info {
        None => Err(CaptureError::D3d(String::from_str("VRChat's Spout sender is unavailable"))),
        Some(texture) => {
            if texture.width == 0 || texture.height == 0 {
                Err(CaptureError::D3d(String::from_str("VRChat's Spout sender has no frame dimensions")))
            } else {
                Ok(texture)
            }
        },
    }
}
/// A step of reading one frame from the Spout receiver.
#[derive(Clone, Copy, Debug, PartialEq, Eq, Structural)]
pub enum FrameRead {
    /// Receive the shared texture into the target texture.
    Receive,
    /// Ask whether the sender's texture changed.
    CheckUpdated,
    /// Read the size and format of the sender's texture.
    ReadSenderTexture,
    /// Create new target and staging textures of this size and format.
    Recreate(SenderTexture),
    /// Receive the shared texture into the new target texture.
    ReceiveAgain,
    /// Ask whether the received frame is new.
    CheckFrameNew,
    /// Copy the frame into the staging texture and read its bytes.
    Copy,
    /// There is no frame to read this time.
    NoFrame,
}

/// What a step of reading a frame found out.
#[derive(Clone, Copy, Debug, PartialEq, Eq, Structural)]
pub enum FrameReadEvent {
    /// The answer of a call that succeeds or fails, or of a yes/no question.
    Answer(bool),
    /// The size and format of the sender's texture.
    Texture(SenderTexture),
    /// The textures were created anew.
    Recreated,
}

/// The step after `step` when `event` happened: a frame is copied only when the texture
/// was received and the frame is new; a changed sender texture is first checked for an
/// area, then the textures are created anew and the texture is received into them. An
/// event that does not belong to the step ends the read without a frame.
pub open spec fn frame_read_after(step: FrameRead, event: FrameReadEvent) -> FrameRead {
    match (step, event) {
        (FrameRead::Receive, FrameReadEvent::Answer(received)) => if received {
            FrameRead::CheckUpdated
        } else {
            FrameRead::NoFrame
        },
        (FrameRead::CheckUpdated, FrameReadEvent::Answer(updated)) => if updated {
            FrameRead::ReadSenderTexture
        } else {
            FrameRead::CheckFrameNew
        },
        (FrameRead::ReadSenderTexture, FrameReadEvent::Texture(texture)) => if texture.width == 0
            || texture.height == 0 {
            FrameRead::NoFrame
        } else {
            FrameRead::Recreate(texture)
        },
        (FrameRead::Recreate(_), FrameReadEvent::Recreated) => FrameRead::ReceiveAgain,
        (FrameRead::ReceiveAgain, FrameReadEvent::Answer(received)) => if received {
            FrameRead::CheckFrameNew
        } else {
            FrameRead::NoFrame
        },
        (FrameRead::CheckFrameNew, FrameReadEvent::Answer(new_frame)) => if new_frame {
            FrameRead::Copy
        } else {
            FrameRead::NoFrame
        },
        _ => FrameRead::NoFrame,
    }
}

/// Decides the next step of reading a frame.
pub fn next_frame_read(step: FrameRead, event: FrameReadEvent) -> (next: FrameRead)
    ensures
        next == frame_read_after(step, event),
{
    match (step, event) {
        (FrameRead::Receive, FrameReadEvent::Answer(received)) => if received {
            FrameRead::CheckUpdated
        } else {
            FrameRead::NoFrame
        },
        (FrameRead::CheckUpdated, FrameReadEvent::Answer(updated)) => if updated {
            FrameRead::ReadSenderTexture
        } else {
            FrameRead::CheckFrameNew
        },
        (FrameRead::ReadSenderTexture, FrameReadEvent::Texture(texture)) => {
            match usable_sender_texture(Some(texture)) {
                Ok(texture) => FrameRead::Recreate(texture),
                Err(_) => FrameRead::NoFrame,
            }
        },
        (FrameRead::Recreate(_), FrameReadEvent::Recreated) => FrameRead::ReceiveAgain,
        (FrameRead::ReceiveAgain, FrameReadEvent::Answer(received)) => if received {
            FrameRead::CheckFrameNew
        } else {
            FrameRead::NoFrame
        },
        (FrameRead::CheckFrameNew, FrameReadEvent::Answer(new_frame)) => if new_frame {
            FrameRead::Copy
        } else {
            FrameRead::NoFrame
        },
        _ => FrameRead::NoFrame,
    }
}

/// A frame is copied only right after the receiver said that the frame is new, and new
/// textures are created only for a sender texture with an area.
pub proof fn law_copies_only_new_frames(step: FrameRead, event: FrameReadEvent)
    ensures
        frame_read_after(step, event) == FrameRead::Copy ==> step == FrameRead::CheckFrameNew
            && event == FrameReadEvent::Answer(true),
        frame_read_after(step, event) matches FrameRead::Recreate(texture) ==> texture.width > 0
            && texture.height > 0 && event == FrameReadEvent::Texture(texture),
{
}

/// A read that goes well reaches the copy of the frame, whatever the sender's format:
/// a received texture leads to the question whether it changed; an unchanged one to the
/// question whether the frame is new; a changed one with an area, of any size and
/// format, to new textures of exactly that size and format, then to receiving into them
/// and to the same question; and a new frame is copied. A failed receive, a sender
/// texture without area and an old frame end the read without a frame.
pub proof fn law_good_reads_reach_the_copy(texture: SenderTexture)
    ensures
        frame_read_after(FrameRead::Receive, FrameReadEvent::Answer(true)) == FrameRead::CheckUpdated,
        frame_read_after(FrameRead::CheckUpdated, FrameReadEvent::Answer(false))
            == FrameRead::CheckFrameNew,
        frame_read_after(FrameRead::CheckUpdated, FrameReadEvent::Answer(true))
            == FrameRead::ReadSenderTexture,
        texture.width > 0 && texture.height > 0 ==> frame_read_after(
            FrameRead::ReadSenderTexture,
            FrameReadEvent::Texture(texture),
        ) == FrameRead::Recreate(texture),
        frame_read_after(FrameRead::Recreate(texture), FrameReadEvent::Recreated)
            == FrameRead::ReceiveAgain,
        frame_read_after(FrameRead::ReceiveAgain, FrameReadEvent::Answer(true))
            == FrameRead::CheckFrameNew,
        frame_read_after(FrameRead::CheckFrameNew, FrameReadEvent::Answer(true)) == FrameRead::Copy,
        frame_read_after(FrameRead::Receive, FrameReadEvent::Answer(false)) == FrameRead::NoFrame,
        frame_read_after(FrameRead::ReceiveAgain, FrameReadEvent::Answer(false)) == FrameRead::NoFrame,
        texture.width == 0 || texture.height == 0 ==> frame_read_after(
            FrameRead::ReadSenderTexture,
            FrameReadEvent::Texture(texture),
        ) == FrameRead::NoFrame,
        frame_read_after(FrameRead::CheckFrameNew, FrameReadEvent::Answer(false)) == FrameRead::NoFrame,
{
}

/// How a texture of the capture is used by the GPU.
#[derive(Clone, Copy, Debug, PartialEq, Eq, Structural)]
pub enum TextureUsage {
    /// Read and written by the GPU only.
    Default,
    /// A copy target that the CPU reads.
    Staging,
}

/// The shape of a 2D texture that the capture creates: one mip level, one array slice,
/// one sample of quality zero, no further flags.
#[derive(Clone, Copy, Debug, PartialEq, Eq, Structural)]
pub struct TextureDescription {
    pub width: u32,
    pub height: u32,
    pub format: u32,
    pub usage: TextureUsage,
    /// The texture can be bound as a shader resource.
    pub shader_resource: bool,
    /// The CPU can read the texture.
    pub cpu_read: bool,
}

/// The target texture that receives the shared texture and the staging texture that the
/// CPU reads it from: both of the sender's size and format.
pub fn capture_textures(width: u32, height: u32, format: u32) -> (res: (TextureDescription, TextureDescription))
    ensures
        res.0 == (TextureDescription {
            width,
            height,
            format,
            usage: TextureUsage::Default,
            shader_resource: true,
            cpu_read: false,
        }),
        res.1 == (TextureDescription {
            width,
            height,
            format,
            usage: TextureUsage::Staging,
            shader_resource: false,
            cpu_read: true,
        }),
{
    let target = TextureDescription {
        width,
        height,
        format,
        usage: TextureUsage::Default,
        shader_resource: true,
        cpu_read: false,
    };
    let staging = TextureDescription {
        usage: TextureUsage::Staging,
        shader_resource: false,
        cpu_read: true,
        ..target
    };
    (target, staging)
}

/// A Direct3D or Spout object that opening a reader expected and did not get.
#[derive(Clone, Copy, Debug, PartialEq, Eq, Structural)]
pub enum ReaderSetupFailure {
    NoDevice,
    NoContext,
    NoTarget,
    NoStagingTexture,
    ReceiverNotOpened,
}

/// The error for an object that opening a reader did not get.
pub fn reader_setup_error(failure: ReaderSetupFailure) -> (error: CaptureError)
    ensures
        error matches CaptureError::D3d(message) && message@ == match failure {
            ReaderSetupFailure::NoDevice => "device creation returned no device"@,
            ReaderSetupFailure::NoContext => "device creation returned no context"@,
            ReaderSetupFailure::NoTarget => "texture creation returned no target"@,
            ReaderSetupFailure::NoStagingTexture => "texture creation returned no staging texture"@,
            ReaderSetupFailure::ReceiverNotOpened => "Spout could not open the D3D11 receiver"@,
        },
{
    CaptureError::D3d(
        String::from_str(
            match failure {
                ReaderSetupFailure::NoDevice => "device creation returned no device",
                ReaderSetupFailure::NoContext => "device creation returned no context",
                ReaderSetupFailure::NoTarget => "texture creation returned no target",
                ReaderSetupFailure::NoStagingTexture => "texture creation returned no staging texture",
                ReaderSetupFailure::ReceiverNotOpened => "Spout could not open the D3D11 receiver",
            },
        ),
    )
}

} // verus!
