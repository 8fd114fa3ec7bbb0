use k21_node::error::PipelineError;
use k21_node::image::JsImageDataCollection;
use k21_node::run::{Event, RawFrame, Run, SourceFailure, Transition};
use k21_node::types::ProcessingType;
use k21_node::uploader::FrameNumbering;

fn frame(frame_number: u64, payload: &str) -> Event<String> {
    Event::Frame(RawFrame {
        timestamp: format!("2025-03-01T12:00:{:02}Z", frame_number % 60),
        frame_number,
        pixel_payload: payload.to_string(),
    })
}

fn expect_infer(t: Transition<String>) -> (Run, String) {
    match t {
        Transition::Infer(run, payload) => (run, payload),
        Transition::NextFrame(_) => panic!("asked for a frame, expected an inference"),
        Transition::Finished(_) => panic!("finished, expected an inference"),
    }
}

fn expect_next_frame(t: Transition<String>) -> Run {
    match t {
        Transition::NextFrame(run) => run,
        Transition::Infer(_, _) => panic!("asked for an inference, expected a frame"),
        Transition::Finished(_) => panic!("finished, expected to go on"),
    }
}

fn expect_finished(t: Transition<String>) -> Result<JsImageDataCollection, PipelineError> {
    match t {
        Transition::Finished(outcome) => outcome,
        Transition::NextFrame(_) => panic!("asked for a frame, expected the end"),
        Transition::Infer(_, _) => panic!("asked for an inference, expected the end"),
    }
}

/// Feeds the frames with their contents to a fresh run and ends the stream.
fn run_to_end(
    processing_type: ProcessingType,
    frames: &[(u64, &str)],
) -> Result<JsImageDataCollection, PipelineError> {
    let mut run = Run::new(processing_type);
    for (frame_number, content) in frames {
        let (waiting, _) = expect_infer(run.step(frame(*frame_number, "pixels")));
        run = expect_next_frame(waiting.step::<String>(Event::Inferred(content.to_string())));
    }
    expect_finished(run.step::<String>(Event::EndOfStream))
}

#[test]
fn new_run_has_the_configured_type() {
    assert_eq!(Run::new(ProcessingType::OCR).processing_type(), ProcessingType::OCR);
    assert_eq!(Run::new(ProcessingType::Vision).processing_type(), ProcessingType::Vision);
}

#[test]
fn frame_goes_to_the_engine_with_its_payload_unchanged() {
    let (run, payload) = expect_infer(Run::new(ProcessingType::OCR).step(frame(1, "pixels of 1")));
    assert_eq!(payload, "pixels of 1");
    assert_eq!(run.processing_type(), ProcessingType::OCR);
}

#[test]
fn capture_of_three_seconds_at_one_frame_per_second() {
    let c = run_to_end(ProcessingType::OCR, &[(1, "Hello"), (2, ""), (3, "World")])
        .expect("a valid run");
    assert!(c.data.len() >= 1 && c.data.len() <= 4);
    assert_eq!(c.data.len(), 3);
    for (i, d) in c.data.iter().enumerate() {
        assert_eq!(d.frame_number as usize, i + 1);
        assert_eq!(d.processing_type, "OCR");
        assert!(d.timestamp.len() > 0);
    }
    assert!(c.data.iter().any(|d| d.content.len() > 0));
    assert_eq!(c.data[0].content, "Hello");
    assert_eq!(c.data[1].content, "");
    assert_eq!(c.data[2].content, "World");
    assert_eq!(c.data[0].timestamp, "2025-03-01T12:00:01Z");
    assert_eq!(c.data[2].timestamp, "2025-03-01T12:00:03Z");
}

#[test]
fn upload_of_a_still_image_gives_one_record_numbered_one() {
    let mut numbering = FrameNumbering::new();
    let number = numbering.next().expect("the first number");
    let c = run_to_end(ProcessingType::OCR, &[(number, "text on the image")])
        .expect("a valid run");
    assert_eq!(c.data.len(), 1);
    assert_eq!(c.data[0].frame_number, 1);
    assert_eq!(c.data[0].processing_type, "OCR");
    assert_eq!(c.data[0].content, "text on the image");
}

#[test]
fn upload_of_a_missing_file_gives_file_not_found() {
    let outcome = expect_finished(
        Run::new(ProcessingType::OCR)
            .step::<String>(Event::SourceFailed(SourceFailure::FileNotFound)),
    );
    assert!(matches!(outcome, Err(PipelineError::FileNotFound)));
}

#[test]
fn upload_of_an_unknown_format_gives_unsupported_format() {
    let outcome = expect_finished(
        Run::new(ProcessingType::Vision)
            .step::<String>(Event::SourceFailed(SourceFailure::UnsupportedFormat)),
    );
    assert!(matches!(outcome, Err(PipelineError::UnsupportedFormat)));
}

#[test]
fn corrupt_data_mid_stream_gives_decode_error_and_no_collection() {
    let run = Run::new(ProcessingType::OCR);
    let (run, _) = expect_infer(run.step(frame(1, "pixels")));
    let run = expect_next_frame(run.step::<String>(Event::Inferred("one".to_string())));
    let outcome = expect_finished(run.step::<String>(Event::SourceFailed(SourceFailure::Decode)));
    assert!(matches!(outcome, Err(PipelineError::DecodeError)));
}

#[test]
fn capture_that_cannot_start_gives_capture_error() {
    let outcome = expect_finished(
        Run::new(ProcessingType::OCR).step::<String>(Event::SourceFailed(SourceFailure::Capture)),
    );
    assert!(matches!(outcome, Err(PipelineError::CaptureError)));
}

#[test]
fn capture_failure_while_a_frame_is_with_the_engine() {
    let (run, _) = expect_infer(Run::new(ProcessingType::OCR).step(frame(1, "pixels")));
    let outcome = expect_finished(run.step::<String>(Event::SourceFailed(SourceFailure::Capture)));
    assert!(matches!(outcome, Err(PipelineError::CaptureError)));
}

#[test]
fn one_failed_inference_aborts_the_run() {
    let run = Run::new(ProcessingType::Vision);
    let (run, _) = expect_infer(run.step(frame(1, "pixels")));
    let run = expect_next_frame(run.step::<String>(Event::Inferred("a cat".to_string())));
    let (run, _) = expect_infer(run.step(frame(2, "pixels")));
    let outcome = expect_finished(run.step::<String>(Event::InferenceFailed));
    assert!(matches!(outcome, Err(PipelineError::ProcessingError)));
}

#[test]
fn stream_without_frames_gives_an_empty_collection() {
    let c = run_to_end(ProcessingType::OCR, &[]).expect("nothing went wrong");
    assert!(c.data.is_empty());
}

#[test]
fn records_keep_the_order_of_production() {
    let c = run_to_end(ProcessingType::Vision, &[(2, "b"), (4, "d"), (7, "g"), (8, "h")])
        .expect("a valid run");
    let numbers: Vec<u32> = c.data.iter().map(|d| d.frame_number).collect();
    assert_eq!(numbers, vec![2, 4, 7, 8]);
    let contents: Vec<&str> = c.data.iter().map(|d| d.content.as_str()).collect();
    assert_eq!(contents, vec!["b", "d", "g", "h"]);
    for d in &c.data {
        assert_eq!(d.processing_type, "Vision");
    }
}

#[test]
fn frames_out_of_order_are_an_internal_error() {
    let outcome = run_to_end(ProcessingType::OCR, &[(1, "a"), (3, "c"), (2, "b")]);
    assert!(matches!(outcome, Err(PipelineError::InternalError)));
}

#[test]
fn repeated_frame_number_is_an_internal_error() {
    let outcome = run_to_end(ProcessingType::OCR, &[(1, "a"), (2, "b"), (2, "b")]);
    assert!(matches!(outcome, Err(PipelineError::InternalError)));
}

#[test]
fn frame_number_zero_is_an_internal_error() {
    let outcome = run_to_end(ProcessingType::OCR, &[(0, "a")]);
    assert!(matches!(outcome, Err(PipelineError::InternalError)));
}

#[test]
fn frame_with_an_empty_timestamp_is_an_internal_error() {
    let run = Run::new(ProcessingType::OCR);
    let (run, _) = expect_infer(run.step(Event::Frame(RawFrame {
        timestamp: String::new(),
        frame_number: 1,
        pixel_payload: "pixels".to_string(),
    })));
    let run = expect_next_frame(run.step::<String>(Event::Inferred("a".to_string())));
    let outcome = expect_finished(run.step::<String>(Event::EndOfStream));
    assert!(matches!(outcome, Err(PipelineError::InternalError)));
}

#[test]
fn second_frame_before_the_first_is_answered_is_an_internal_error() {
    let (run, _) = expect_infer(Run::new(ProcessingType::OCR).step(frame(1, "pixels")));
    let outcome = expect_finished(run.step(frame(2, "pixels")));
    assert!(matches!(outcome, Err(PipelineError::InternalError)));
}

#[test]
fn end_of_stream_while_a_frame_is_with_the_engine_is_an_internal_error() {
    let (run, _) = expect_infer(Run::new(ProcessingType::OCR).step(frame(1, "pixels")));
    let outcome = expect_finished(run.step::<String>(Event::EndOfStream));
    assert!(matches!(outcome, Err(PipelineError::InternalError)));
}

#[test]
fn content_without_a_frame_is_an_internal_error() {
    let outcome = expect_finished(
        Run::new(ProcessingType::OCR).step::<String>(Event::Inferred("stray".to_string())),
    );
    assert!(matches!(outcome, Err(PipelineError::InternalError)));
}

#[test]
fn inference_failure_without_a_frame_is_an_internal_error() {
    let outcome =
        expect_finished(Run::new(ProcessingType::OCR).step::<String>(Event::InferenceFailed));
    assert!(matches!(outcome, Err(PipelineError::InternalError)));
}

#[test]
fn numbered_upload_of_several_frames() {
    let mut numbering = FrameNumbering::new();
    let mut run = Run::new(ProcessingType::OCR);
    for content in ["a", "b", "c", "d", "e"] {
        let n = numbering.next().expect("a number");
        let (waiting, payload) = expect_infer(run.step(frame(n, content)));
        assert_eq!(payload, content);
        run = expect_next_frame(waiting.step::<String>(Event::Inferred(payload)));
    }
    let c = expect_finished(run.step::<String>(Event::EndOfStream)).expect("a valid run");
    let numbers: Vec<u32> = c.data.iter().map(|d| d.frame_number).collect();
    assert_eq!(numbers, vec![1, 2, 3, 4, 5]);
}
