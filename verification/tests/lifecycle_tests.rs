use compresso::error::CompressoError;
use compresso::lifecycle::{
    encoding_step, overwrite_gate, EncodingStep, ErrorKind, OverwriteProbe, PollEvent,
};

#[test]
fn test_overwrite_gate_rejects_existing_destination() {
    // without overwrite permission, an existing destination fails the job
    // before any subprocess is spawned
    match overwrite_gate(OverwriteProbe::AlreadyExists, "out.mp4") {
        Err(CompressoError::InvalidOutput(m)) => {
            assert_eq!(m, "File already exists: out.mp4. Use -y to overwrite.");
        },
        _ => panic!("an existing destination must be rejected as InvalidOutput"),
    }
}

#[test]
fn test_overwrite_gate_accepts_fresh_destination() {
    assert!(overwrite_gate(OverwriteProbe::Created, "out.mp4").is_ok());
    assert!(matches!(
        overwrite_gate(OverwriteProbe::ProbeError("permission denied".to_string()), "out.mp4"),
        Err(CompressoError::Io(_))
    ));
}

#[test]
fn test_cancellation_aborts_and_cleans_up() {
    // cancellation always wins: the loop kills the subprocess and removes
    // the temp artifact
    assert!(matches!(
        encoding_step(PollEvent::CancelRequested),
        EncodingStep::Abort(CompressoError::Cancelled)
    ));
}

#[test]
fn test_successful_exit_promotes_temp() {
    assert!(matches!(encoding_step(PollEvent::ExitedOk), EncodingStep::Finish));
}

#[test]
fn test_failed_exit_classification() {
    match encoding_step(PollEvent::ExitedWithError("codec error".to_string())) {
        EncodingStep::Abort(CompressoError::FfmpegError(m)) => assert_eq!(m, "codec error"),
        _ => panic!("a failed exit with stderr must carry the stderr payload"),
    }
    assert!(matches!(
        encoding_step(PollEvent::ExitedNoOutput),
        EncodingStep::Abort(CompressoError::CorruptedVideo)
    ));
    assert!(matches!(
        encoding_step(PollEvent::WaitFailed("lost child".to_string())),
        EncodingStep::Abort(CompressoError::FfmpegError(_))
    ));
}

#[test]
fn test_still_running_keeps_polling() {
    assert!(matches!(encoding_step(PollEvent::StillRunning), EncodingStep::Continue));
}

#[test]
fn test_error_kinds() {
    assert_eq!(CompressoError::FileNotFound("x".to_string()).kind(), ErrorKind::NotFound);
    assert_eq!(CompressoError::InvalidInput("x".to_string()).kind(), ErrorKind::InvalidInput);
    assert_eq!(CompressoError::InvalidOutput("x".to_string()).kind(), ErrorKind::InvalidOutput);
    assert_eq!(CompressoError::FfmpegNotFound.kind(), ErrorKind::ToolNotAvailable);
    assert_eq!(CompressoError::FfmpegError("x".to_string()).kind(), ErrorKind::ToolFailure);
    assert_eq!(CompressoError::Cancelled.kind(), ErrorKind::Cancelled);
    assert_eq!(CompressoError::CorruptedVideo.kind(), ErrorKind::Corrupted);
    assert_eq!(CompressoError::Io("x".to_string()).kind(), ErrorKind::Io);
}
