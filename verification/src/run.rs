use crate::error::PipelineError;
use crate::image::{
    all_fit_js, image_data_views, ImageData, ImageDataView, JsImageDataCollection, JsImageDataView,
};
use crate::pipeline::{
    assemble, assembled, lemma_assembled_well_formed, outcome_view, valid_records, well_formed,
};
use crate::timestamp::valid_timestamp;
use crate::types::ProcessingType;
use vstd::prelude::*;

verus! {

/// One frame as a source hands it over. The payload is whatever the source
/// and the inference engine agree on; the core only passes it on.
pub struct RawFrame<P> {
    pub timestamp: String,
    pub frame_number: u64,
    pub pixel_payload: P,
}

/// Why a source stopped before its end.
#[derive(Clone, Copy, Debug, PartialEq, Eq, Structural)]
pub enum SourceFailure {
    /// The capture engine could not start, or failed while running.
    Capture,
    /// The uploaded path does not resolve.
    FileNotFound,
    /// The container or codec is not recognized.
    UnsupportedFormat,
    /// Corrupt data was met while decoding.
    Decode,
}

impl SourceFailure {
    /// The error a run ends with after this failure.
    pub open spec fn error(self) -> PipelineError {
        match self {
            SourceFailure::Capture => PipelineError::CaptureError,
            SourceFailure::FileNotFound => PipelineError::FileNotFound,
            SourceFailure::UnsupportedFormat => PipelineError::UnsupportedFormat,
            SourceFailure::Decode => PipelineError::DecodeError,
        }
    }

    pub fn to_error(self) -> (r: PipelineError)
        ensures
            r == self.error(),
    {
        match self {
            SourceFailure::Capture => PipelineError::CaptureError,
            SourceFailure::FileNotFound => PipelineError::FileNotFound,
            SourceFailure::UnsupportedFormat => PipelineError::UnsupportedFormat,
            SourceFailure::Decode => PipelineError::DecodeError,
        }
    }
}

/// What the outside reports to a run.
pub enum Event<P> {
    /// The source produced its next frame.
    Frame(RawFrame<P>),
    /// The source has ended: the bound of a capture has elapsed, or the
    /// engine has no more frames.
    EndOfStream,
    /// The source failed.
    SourceFailed(SourceFailure),
    /// The inference engine returned the content of the frame it was given.
    Inferred(String),
    /// The inference engine failed on the frame it was given.
    InferenceFailed,
}

/// The view of [`Event`]: the same contents, with each text as its sequence of
/// characters.
pub enum EventView<P> {
    Frame { timestamp: Seq<char>, frame_number: u64, pixel_payload: P },
    EndOfStream,
    SourceFailed(SourceFailure),
    Inferred(Seq<char>),
    InferenceFailed,
}

impl<P> View for Event<P> {
    type V = EventView<P>;

    open spec fn view(&self) -> EventView<P> {
        match self {
            Event::Frame(f) => EventView::Frame {
                timestamp: f.timestamp@,
                frame_number: f.frame_number,
                pixel_payload: f.pixel_payload,
            },
            Event::EndOfStream => EventView::EndOfStream,
            Event::SourceFailed(f) => EventView::SourceFailed(*f),
            Event::Inferred(c) => EventView::Inferred(c@),
            Event::InferenceFailed => EventView::InferenceFailed,
        }
    }
}

/// A run between two events: the records made so far, and the frame that is
/// with the inference engine, if one is.
pub struct Run {
    processing_type: ProcessingType,
    records: Vec<ImageData>,
    pending: Option<(String, u64)>,
}

/// The view of [`Run`]: the same contents, with each text as its sequence of
/// characters.
pub struct RunView {
    pub processing_type: ProcessingType,
    pub records: Seq<ImageDataView>,
    pub pending: Option<(Seq<char>, u64)>,
}

impl View for Run {
    type V = RunView;

    closed spec fn view(&self) -> RunView {
        RunView {
            processing_type: self.processing_type,
            records: image_data_views(self.records@),
            pending: match self.pending {
                Some((t, n)) => Some((t@, n)),
                None => None,
            },
        }
    }
}

/// What a run asks of the outside after an event, or how it ended.
pub enum Transition<P> {
    /// Ask the source for its next frame.
    NextFrame(Run),
    /// Give this payload to the configured inference engine.
    Infer(Run, P),
    /// The run is over. Nothing more is asked of the source or the engine.
    Finished(Result<JsImageDataCollection, PipelineError>),
}

/// The view of [`Transition`]: the same contents, with each text as its sequence of
/// characters.
pub enum TransitionView<P> {
    NextFrame(RunView),
    Infer(RunView, P),
    Finished(Result<Seq<JsImageDataView>, PipelineError>),
}

impl<P> View for Transition<P> {
    type V = TransitionView<P>;

    open spec fn view(&self) -> TransitionView<P> {
        match self {
            Transition::NextFrame(r) => TransitionView::NextFrame(r@),
            Transition::Infer(r, p) => TransitionView::Infer(r@, *p),
            Transition::Finished(o) => TransitionView::Finished(outcome_view(*o)),
        }
    }
}

impl RunView {
    /// The record the dispatcher makes of the pending frame: timestamp and
    /// frame number as the source gave them, the content as the engine
    /// returned it, and the configured processing type.
    pub open spec fn record(self, content: Seq<char>) -> ImageDataView
        recommends
            self.pending.is_some(),
    {
        ImageDataView {
            timestamp: self.pending.unwrap().0,
            frame_number: self.pending.unwrap().1,
            content,
            processing_type: self.processing_type,
        }
    }

    /// The run's answer to an event.
    ///
    /// While no frame is pending, a frame goes to the engine and the end of
    /// the stream assembles the records. While a frame is pending, the
    /// engine's content completes its record and the next frame is asked
    /// for, and the engine's failure ends the run at once. A failure of the
    /// source ends the run with that failure's error. Any other event does
    /// not belong to a run in this state and ends it with an internal error.
    pub open spec fn step<P>(self, event: EventView<P>) -> TransitionView<P> {
        match event {
            EventView::SourceFailed(f) => TransitionView::Finished(Err(f.error())),
            EventView::Frame { timestamp, frame_number, pixel_payload } => if self.pending.is_none() {
                TransitionView::Infer(
                    RunView { pending: Some((timestamp, frame_number)), ..self },
                    pixel_payload,
                )
            } else {
                TransitionView::Finished(Err(PipelineError::InternalError))
            },
            EventView::EndOfStream => if self.pending.is_none() {
                TransitionView::Finished(assembled(self.records, self.processing_type))
            } else {
                TransitionView::Finished(Err(PipelineError::InternalError))
            },
            EventView::Inferred(content) => if self.pending.is_some() {
                TransitionView::NextFrame(
                    RunView { records: self.records.push(self.record(content)), pending: None, ..self },
                )
            } else {
                TransitionView::Finished(Err(PipelineError::InternalError))
            },
            EventView::InferenceFailed => if self.pending.is_some() {
                TransitionView::Finished(Err(PipelineError::ProcessingError))
            } else {
                TransitionView::Finished(Err(PipelineError::InternalError))
            },
        }
    }

    /// Every record made so far has the configured processing type.
    pub open spec fn uniform(self) -> bool {
        forall|i: int|
            0 <= i < self.records.len() ==> (#[trigger] self.records[i]).processing_type
                == self.processing_type
    }
}

impl Run {
    /// No run ever holds a record of another engine than the configured one.
    #[verifier::type_invariant]
    spec fn one_engine(self) -> bool {
        forall|i: int|
            0 <= i < self.records.len() ==> (#[trigger] self.records[i])@.processing_type
                == self.processing_type
    }

    /// A run that has made no record yet and waits for its first frame.
    pub fn new(processing_type: ProcessingType) -> (r: Run)
        ensures
            r@ == (RunView { processing_type, records: Seq::empty(), pending: None }),
            r@.uniform(),
    {
        let r = Run { processing_type, records: Vec::new(), pending: None };
        assert(r@.records =~= Seq::empty());
        r
    }

    /// The processing type the run was configured with.
    pub fn processing_type(&self) -> (r: ProcessingType)
        ensures
            r == self@.processing_type,
    {
        self.processing_type
    }

    /// Takes one event and says what to do next.
    pub fn step<P>(self, event: Event<P>) -> (r: Transition<P>)
        ensures
            r@ == self@.step(event@),
            self@.uniform(),
            r matches Transition::NextFrame(next) ==> next@.uniform(),
            r matches Transition::Infer(next, _) ==> next@.uniform(),
            r matches Transition::Finished(Ok(c)) ==> well_formed(c@, self@.processing_type),
    {
        proof {
            use_type_invariant(&self);
            lemma_step_keeps_uniform(self@, event@);
        }
        let Run { processing_type, mut records, pending } = self;
        match event {
            Event::SourceFailed(f) => Transition::Finished(Err(f.to_error())),
            Event::Frame(frame) => match pending {
                None => {
                    let RawFrame { timestamp, frame_number, pixel_payload } = frame;
                    Transition::Infer(
                        Run { processing_type, records, pending: Some((timestamp, frame_number)) },
                        pixel_payload,
                    )
                },
                Some(_) => Transition::Finished(Err(PipelineError::InternalError)),
            },
            Event::EndOfStream => match pending {
                None => Transition::Finished(assemble(&records, processing_type)),
                Some(_) => Transition::Finished(Err(PipelineError::InternalError)),
            },
            Event::Inferred(content) => match pending {
                Some((timestamp, frame_number)) => {
                    let ghost before = image_data_views(records@);
                    let record = ImageData::new(timestamp, frame_number, content, processing_type);
                    records.push(record);
                    assert(image_data_views(records@) =~= before.push(record@));
                    Transition::NextFrame(Run { processing_type, records, pending: None })
                },
                None => Transition::Finished(Err(PipelineError::InternalError)),
            },
            Event::InferenceFailed => match pending {
                Some(_) => Transition::Finished(Err(PipelineError::ProcessingError)),
                None => Transition::Finished(Err(PipelineError::InternalError)),
            },
        }
    }
}

/// A step never mixes engines: if every record made so far has the
/// configured processing type, so has every record after the step, and the
/// configured type itself never changes.
pub proof fn lemma_step_keeps_uniform<P>(run: RunView, event: EventView<P>)
    requires
        run.uniform(),
    ensures
        run.step(event) matches TransitionView::NextFrame(next) ==> next.uniform()
            && next.processing_type == run.processing_type,
        run.step(event) matches TransitionView::Infer(next, _) ==> next.uniform()
            && next.processing_type == run.processing_type,
{
    match run.step(event) {
        TransitionView::NextFrame(next) => {
            assert forall|i: int| 0 <= i < next.records.len() implies (
            #[trigger] next.records[i]).processing_type == next.processing_type by {
                if i < run.records.len() {
                    assert(next.records[i] == run.records[i]);
                }
            }
        },
        _ => {},
    }
}

/// A run that ends well ends with a well-formed collection: whatever the
/// state and the event, a collection that a step hands out has strictly
/// ascending frame numbers, none below 1, valid timestamps, and only the
/// configured processing type.
pub proof fn lemma_step_result_well_formed<P>(run: RunView, event: EventView<P>)
    ensures
        run.step(event) matches TransitionView::Finished(Ok(c)) ==> well_formed(
            c,
            run.processing_type,
        ),
{
    lemma_assembled_well_formed(run.records, run.processing_type);
}

/// The records a run makes of `n` frames and the contents the engine
/// returned for them, frame by frame.
pub open spec fn records_of(
    processing_type: ProcessingType,
    timestamps: Seq<Seq<char>>,
    frame_numbers: Seq<u64>,
    contents: Seq<Seq<char>>,
    n: int,
) -> Seq<ImageDataView> {
    Seq::new(
        n as nat,
        |i: int|
            ImageDataView {
                timestamp: timestamps[i],
                frame_number: frame_numbers[i],
                content: contents[i],
                processing_type,
            },
    )
}

/// The state of a run after its first `n` frames have each been handed in
/// and answered by the engine, where every step asked for what came next.
pub open spec fn after_frames<P>(
    run: RunView,
    timestamps: Seq<Seq<char>>,
    frame_numbers: Seq<u64>,
    payloads: Seq<P>,
    contents: Seq<Seq<char>>,
    n: int,
) -> Option<RunView>
    decreases n,
{
    if n <= 0 {
        Some(run)
    } else {
        match after_frames(run, timestamps, frame_numbers, payloads, contents, n - 1) {
            Some(before) => match before.step(
                EventView::Frame {
                    timestamp: timestamps[n - 1],
                    frame_number: frame_numbers[n - 1],
                    pixel_payload: payloads[n - 1],
                },
            ) {
                TransitionView::Infer(waiting, payload) => if payload == payloads[n - 1] {
                    match waiting.step::<P>(EventView::Inferred(contents[n - 1])) {
                        TransitionView::NextFrame(after) => Some(after),
                        _ => None,
                    }
                } else {
                    None
                },
                _ => None,
            },
            None => None,
        }
    }
}

/// A run keeps one record per frame, in the order the frames came, with
/// timestamp and frame number as the source gave them: after `n` frames,
/// each answered by the engine, a fresh run holds exactly `records_of` them
/// and waits for the next frame; each payload went to the engine unchanged.
/// When the source then ends, the run ends with those records assembled.
pub proof fn lemma_run_keeps_order<P>(
    processing_type: ProcessingType,
    timestamps: Seq<Seq<char>>,
    frame_numbers: Seq<u64>,
    payloads: Seq<P>,
    contents: Seq<Seq<char>>,
    n: int,
)
    requires
        0 <= n,
    ensures
        after_frames(
            RunView { processing_type, records: Seq::empty(), pending: None },
            timestamps,
            frame_numbers,
            payloads,
            contents,
            n,
        ) == Some(
            RunView {
                processing_type,
                records: records_of(processing_type, timestamps, frame_numbers, contents, n),
                pending: None,
            },
        ),
        (RunView {
            processing_type,
            records: records_of(processing_type, timestamps, frame_numbers, contents, n),
            pending: None,
        }).step::<P>(EventView::EndOfStream) == TransitionView::<P>::Finished(
            assembled(
                records_of(processing_type, timestamps, frame_numbers, contents, n),
                processing_type,
            ),
        ),
    decreases n,
{
    if n == 0 {
        assert(records_of(processing_type, timestamps, frame_numbers, contents, 0) =~= Seq::empty());
    } else {
        lemma_run_keeps_order(processing_type, timestamps, frame_numbers, payloads, contents, n - 1);
        let before = RunView {
            processing_type,
            records: records_of(processing_type, timestamps, frame_numbers, contents, n - 1),
            pending: None,
        };
        let waiting = RunView { pending: Some((timestamps[n - 1], frame_numbers[n - 1])), ..before };
        assert(before.records.push(waiting.record(contents[n - 1])) =~= records_of(
            processing_type,
            timestamps,
            frame_numbers,
            contents,
            n,
        ));
    }
}

/// A run succeeds when its source kept its word: if the first `n` frames
/// came with valid timestamps and with frame numbers that are at least 1,
/// strictly ascending and small enough for the boundary record, then the
/// records made of them assemble to a collection of exactly `n` records, the
/// `i`-th with the `i`-th frame's timestamp and number and the content the
/// engine returned for it.
pub proof fn lemma_valid_frames_succeed(
    processing_type: ProcessingType,
    timestamps: Seq<Seq<char>>,
    frame_numbers: Seq<u64>,
    contents: Seq<Seq<char>>,
    n: int,
)
    requires
        0 <= n,
        forall|i: int| 0 <= i < n ==> valid_timestamp(#[trigger] timestamps[i]),
        forall|i: int| 0 <= i < n ==> 1 <= #[trigger] frame_numbers[i] <= u32::MAX,
        forall|i: int, j: int|
            0 <= i < j < n ==> #[trigger] frame_numbers[i] < #[trigger] frame_numbers[j],
    ensures
        assembled(
            records_of(processing_type, timestamps, frame_numbers, contents, n),
            processing_type,
        ) matches Ok(c) && c.len() == n && forall|i: int|
            0 <= i < n ==> #[trigger] c[i] == (JsImageDataView {
                timestamp: timestamps[i],
                frame_number: frame_numbers[i] as u32,
                content: contents[i],
                processing_type: processing_type.tag(),
            }),
{
    let records = records_of(processing_type, timestamps, frame_numbers, contents, n);
    assert forall|i: int, j: int| 0 <= i < j < records.len() implies (
    #[trigger] records[i]).frame_number < (#[trigger] records[j]).frame_number by {
        assert(frame_numbers[i] < frame_numbers[j]);
    }
    assert(valid_records(records, processing_type));
    assert(all_fit_js(records));
}

} // verus!
