use usercamera_pose::capture::{
    encode_png, rgba_pixels, CaptureError, DXGI_FORMAT_B8G8R8A8_UNORM,
    DXGI_FORMAT_R8G8B8A8_UNORM,
};
use usercamera_pose::reader::{
    capture_textures, next_frame_read, reader_setup_error, usable_sender_texture, FrameRead,
    FrameReadEvent, ReaderSetupFailure, SenderTexture, TextureUsage,
};
use usercamera_pose::worker::{CaptureWorker, PendingCapture, WorkerStep};

fn decode(png: Vec<u8>) -> (u32, u32, Vec<u8>) {
    let decoder = png::Decoder::new(std::io::Cursor::new(png));
    let mut reader = decoder.read_info().unwrap();
    let mut decoded = vec![0; reader.output_buffer_size().unwrap()];
    let info = reader.next_frame(&mut decoded).unwrap();
    decoded.truncate(info.buffer_size());
    (info.width, info.height, decoded)
}

#[test]
fn encodes_bgra_spout_pixels_as_rgba_png() {
    let png = encode_png(1, 1, DXGI_FORMAT_B8G8R8A8_UNORM, &[3, 2, 1, 255]).unwrap();
    let decoder = png::Decoder::new(std::io::Cursor::new(png));
    let mut reader = decoder.read_info().unwrap();
    let mut decoded = vec![0; reader.output_buffer_size().unwrap()];
    let info = reader.next_frame(&mut decoded).unwrap();

    assert_eq!((info.width, info.height), (1, 1));
    assert_eq!(&decoded[..4], [1, 2, 3, 255]);
}

#[test]
fn packs_padded_rgba_rows() {
    // Two rows of two pixels, each row padded to 12 bytes.
    let pixels = [
        1, 2, 3, 4, 5, 6, 7, 8, 90, 91, 92, 93, //
        9, 10, 11, 12, 13, 14, 15, 16, 94, 95, 96, 97,
    ];
    let rgba = rgba_pixels(2, 2, DXGI_FORMAT_R8G8B8A8_UNORM, &pixels).unwrap();
    assert_eq!(rgba, vec![1, 2, 3, 4, 5, 6, 7, 8, 9, 10, 11, 12, 13, 14, 15, 16]);
}

#[test]
fn swaps_red_and_blue_of_bgra_rows() {
    let pixels = [10, 20, 30, 40, 50, 60, 70, 80, 0, 0, 0, 0];
    let rgba = rgba_pixels(2, 1, DXGI_FORMAT_B8G8R8A8_UNORM, &pixels).unwrap();
    assert_eq!(rgba, vec![30, 20, 10, 40, 70, 60, 50, 80]);
}

#[test]
fn rejects_rows_shorter_than_the_width() {
    let result = rgba_pixels(2, 2, DXGI_FORMAT_R8G8B8A8_UNORM, &[0; 12]);
    assert!(matches!(
        result,
        Err(CaptureError::D3d(message)) if message == "Spout staging texture has an invalid row pitch"
    ));
}

#[test]
fn rejects_a_length_that_is_not_whole_rows() {
    let result = rgba_pixels(1, 2, DXGI_FORMAT_R8G8B8A8_UNORM, &[0; 9]);
    assert!(matches!(result, Err(CaptureError::D3d(_))));
}

#[test]
fn rejects_an_unsupported_format_after_the_row_check() {
    let result = encode_png(1, 1, 2, &[0; 4]);
    assert!(matches!(result, Err(CaptureError::UnsupportedFormat(2))));
    let result = encode_png(2, 1, 2, &[0; 4]);
    assert!(matches!(result, Err(CaptureError::D3d(_))));
}

#[test]
fn reports_a_zero_width_as_a_png_error() {
    let result = encode_png(0, 1, DXGI_FORMAT_R8G8B8A8_UNORM, &[0; 4]);
    assert!(matches!(result, Err(CaptureError::Png(_))));
}

#[test]
fn encodes_padded_rgba_rows_as_png() {
    let pixels = [
        1, 2, 3, 4, 5, 6, 7, 8, 0, 0, //
        9, 10, 11, 12, 13, 14, 15, 16, 0, 0,
    ];
    let png = encode_png(2, 2, DXGI_FORMAT_R8G8B8A8_UNORM, &pixels).unwrap();
    assert_eq!(&png[..8], [137, 80, 78, 71, 13, 10, 26, 10]);
    let (width, height, decoded) = decode(png);
    assert_eq!((width, height), (2, 2));
    assert_eq!(decoded, (1..=16).collect::<Vec<u8>>());
}

#[test]
fn opens_only_a_published_sender_with_a_frame_size() {
    assert!(matches!(
        usable_sender_texture(None),
        Err(CaptureError::D3d(message)) if message == "VRChat's Spout sender is unavailable"
    ));
    let flat = SenderTexture { width: 0, height: 720, format: DXGI_FORMAT_B8G8R8A8_UNORM };
    assert!(matches!(
        usable_sender_texture(Some(flat)),
        Err(CaptureError::D3d(message)) if message == "VRChat's Spout sender has no frame dimensions"
    ));
    let texture = SenderTexture { width: 1280, height: 720, format: DXGI_FORMAT_B8G8R8A8_UNORM };
    assert!(matches!(usable_sender_texture(Some(texture)), Ok(t) if t == texture));
}

#[test]
fn worker_waits_sleeps_opens_and_reads_in_turn() {
    let mut worker: CaptureWorker<&str> = CaptureWorker::new();
    assert_eq!(worker.next_step(0), WorkerStep::WaitForRequest);
    worker.enqueue(PendingCapture { not_before: 100, reply: "first" });
    assert_eq!(worker.next_step(99), WorkerStep::Sleep);
    assert_eq!(worker.next_step(100), WorkerStep::OpenReader);
    worker.reader_opened();
    assert_eq!(worker.next_step(100), WorkerStep::ReadFrame);
    worker.reader_lost();
    assert_eq!(worker.next_step(150), WorkerStep::OpenReader);
}

#[test]
fn worker_answers_requests_in_arrival_order() {
    let mut worker: CaptureWorker<u32> = CaptureWorker::new();
    worker.enqueue(PendingCapture { not_before: 5, reply: 1 });
    worker.enqueue(PendingCapture { not_before: 0, reply: 2 });
    worker.reader_opened();
    assert!(!worker.is_idle());
    assert_eq!(worker.frame_read(5), Some(1));
    assert_eq!(worker.frame_read(5), Some(2));
    assert_eq!(worker.frame_read(5), None);
    assert!(worker.is_idle());
}

#[test]
fn worker_warns_once_per_run_of_equal_failures() {
    let mut worker: CaptureWorker<()> = CaptureWorker::new();
    assert!(worker.reader_failed("no sender".to_owned()));
    assert!(!worker.reader_failed("no sender".to_owned()));
    assert!(worker.reader_failed("device lost".to_owned()));
    worker.reader_opened();
    assert!(worker.reader_failed("device lost".to_owned()));
}

#[test]
fn reads_a_frame_only_after_a_new_one_arrived() {
    let step = next_frame_read(FrameRead::Receive, FrameReadEvent::Answer(true));
    assert_eq!(step, FrameRead::CheckUpdated);
    let step = next_frame_read(step, FrameReadEvent::Answer(false));
    assert_eq!(step, FrameRead::CheckFrameNew);
    assert_eq!(next_frame_read(step, FrameReadEvent::Answer(true)), FrameRead::Copy);
    assert_eq!(next_frame_read(step, FrameReadEvent::Answer(false)), FrameRead::NoFrame);
    assert_eq!(
        next_frame_read(FrameRead::Receive, FrameReadEvent::Answer(false)),
        FrameRead::NoFrame
    );
}

#[test]
fn recreates_textures_when_the_sender_changes_size() {
    let texture = SenderTexture { width: 640, height: 480, format: DXGI_FORMAT_R8G8B8A8_UNORM };
    let step = next_frame_read(FrameRead::CheckUpdated, FrameReadEvent::Answer(true));
    assert_eq!(step, FrameRead::ReadSenderTexture);
    let step = next_frame_read(step, FrameReadEvent::Texture(texture));
    assert_eq!(step, FrameRead::Recreate(texture));
    let step = next_frame_read(step, FrameReadEvent::Recreated);
    assert_eq!(step, FrameRead::ReceiveAgain);
    assert_eq!(next_frame_read(step, FrameReadEvent::Answer(true)), FrameRead::CheckFrameNew);
    assert_eq!(next_frame_read(step, FrameReadEvent::Answer(false)), FrameRead::NoFrame);
    let empty = SenderTexture { width: 640, height: 0, format: DXGI_FORMAT_R8G8B8A8_UNORM };
    assert_eq!(
        next_frame_read(FrameRead::ReadSenderTexture, FrameReadEvent::Texture(empty)),
        FrameRead::NoFrame
    );
}

#[test]
fn passes_tightly_packed_rgba_through() {
    let pixels: Vec<u8> = (0..24).collect();
    assert_eq!(rgba_pixels(3, 2, DXGI_FORMAT_R8G8B8A8_UNORM, &pixels).unwrap(), pixels);
}

#[test]
fn describes_a_gpu_target_and_a_cpu_readable_staging_texture() {
    let (target, staging) = capture_textures(1920, 1080, DXGI_FORMAT_B8G8R8A8_UNORM);
    assert_eq!((target.width, target.height, target.format), (1920, 1080, 87));
    assert_eq!(target.usage, TextureUsage::Default);
    assert!(target.shader_resource && !target.cpu_read);
    assert_eq!((staging.width, staging.height, staging.format), (1920, 1080, 87));
    assert_eq!(staging.usage, TextureUsage::Staging);
    assert!(!staging.shader_resource && staging.cpu_read);
}

#[test]
fn names_each_missing_reader_object() {
    assert!(matches!(
        reader_setup_error(ReaderSetupFailure::NoDevice),
        CaptureError::D3d(message) if message == "device creation returned no device"
    ));
    assert!(matches!(
        reader_setup_error(ReaderSetupFailure::ReceiverNotOpened),
        CaptureError::D3d(message) if message == "Spout could not open the D3D11 receiver"
    ));
    assert!(matches!(
        reader_setup_error(ReaderSetupFailure::NoStagingTexture),
        CaptureError::D3d(message) if message == "texture creation returned no staging texture"
    ));
}

#[test]
fn reader_failures_keep_waiting_requests() {
    let mut worker: CaptureWorker<u8> = CaptureWorker::new();
    worker.enqueue(PendingCapture { not_before: 0, reply: 7 });
    assert!(worker.reader_failed("no sender".to_owned()));
    worker.reader_lost();
    assert_eq!(worker.next_step(1), WorkerStep::OpenReader);
    assert_eq!(worker.frame_read(1), None);
    worker.reader_opened();
    assert_eq!(worker.frame_read(1), Some(7));
}

#[test]
fn worker_frame_answers_nothing_before_the_request_is_due() {
    let mut worker: CaptureWorker<u8> = CaptureWorker::new();
    worker.reader_opened();
    assert_eq!(worker.frame_read(10), None);
    worker.enqueue(PendingCapture { not_before: 100, reply: 3 });
    worker.enqueue(PendingCapture { not_before: 0, reply: 4 });
    assert_eq!(worker.frame_read(99), None);
    assert!(!worker.is_idle());
    assert_eq!(worker.next_step(99), WorkerStep::Sleep);
    assert_eq!(worker.frame_read(100), Some(3));
    assert_eq!(worker.frame_read(100), Some(4));
    assert!(worker.is_idle());
}

#[test]
fn capture_errors_describe_themselves() {
    assert_eq!(
        CaptureError::Timeout.message(),
        "no Spout frame arrived before the capture timeout"
    );
    assert_eq!(CaptureError::WorkerStopped.message(), "the Spout capture worker stopped");
    assert_eq!(
        CaptureError::D3d("device lost".to_owned()).message(),
        "Direct3D Spout receive failed: device lost"
    );
    assert_eq!(
        CaptureError::UnsupportedFormat(10).message(),
        "unsupported Spout DXGI format 10"
    );
    assert_eq!(
        CaptureError::UnsupportedFormat(0).message(),
        "unsupported Spout DXGI format 0"
    );
    assert_eq!(
        CaptureError::UnsupportedFormat(u32::MAX).message(),
        "unsupported Spout DXGI format 4294967295"
    );
}

#[test]
fn png_failure_message_names_the_encoder_error() {
    let error = encode_png(0, 1, DXGI_FORMAT_R8G8B8A8_UNORM, &[1, 2, 3, 4]).unwrap_err();
    let shown = match &error {
        CaptureError::Png(inner) => inner.to_string(),
        other => panic!("expected a PNG error, got {other:?}"),
    };
    assert_eq!(error.message(), format!("PNG encoding failed: {shown}"));
}

#[test]
fn worker_answers_the_due_request_with_the_encoded_frame() {
    let mut worker: CaptureWorker<&str> = CaptureWorker::new();
    let frame = [1u8, 2, 3, 4, 5, 6, 7, 8];
    worker.enqueue(PendingCapture { not_before: 50, reply: "first" });
    worker.enqueue(PendingCapture { not_before: 0, reply: "second" });
    assert!(worker
        .answer_with_frame(60, 2, 1, DXGI_FORMAT_B8G8R8A8_UNORM, &frame)
        .is_none());
    worker.reader_opened();
    assert!(worker
        .answer_with_frame(49, 2, 1, DXGI_FORMAT_B8G8R8A8_UNORM, &frame)
        .is_none());

    let (reply, png) = worker
        .answer_with_frame(50, 2, 1, DXGI_FORMAT_B8G8R8A8_UNORM, &frame)
        .unwrap();
    assert_eq!(reply, "first");
    assert_eq!(decode(png.unwrap()), (2, 1, vec![3, 2, 1, 4, 7, 6, 5, 8]));

    let (reply, result) = worker.answer_with_frame(50, 2, 1, 99, &frame).unwrap();
    assert_eq!(reply, "second");
    assert!(matches!(result, Err(CaptureError::UnsupportedFormat(99))));
    assert!(worker.is_idle());
    assert!(worker
        .answer_with_frame(50, 2, 1, DXGI_FORMAT_B8G8R8A8_UNORM, &frame)
        .is_none());
}
