use crate::capture::{
    CaptureDefaults, JsScreenCaptureConfig, JsScreenCaptureConfigView, ScreenCaptureConfig,
    ScreenCaptureConfigView,
};
use crate::error::PipelineError;
use crate::image::{
    all_fit_js, image_data_views, to_js_seq, ImageData, ImageDataView, JsImageDataCollection,
    JsImageDataView,
};
use crate::run::SourceFailure;
use crate::timestamp::{is_valid_timestamp, valid_timestamp};
use crate::types::{lemma_tag_round_trip, JsProcessorConfig, ProcessingType, ProcessorConfig};
use vstd::prelude::*;

verus! {

/// The view of a capture configuration that may be absent.
pub open spec fn capture_view(config: Option<ScreenCaptureConfig>) -> Option<
    ScreenCaptureConfigView,
> {
    match config {
        Some(c) => Some(c@),
        None => None,
    }
}

/// The view of a caller's capture configuration that may be absent.
pub open spec fn js_capture_view(config: Option<JsScreenCaptureConfig>) -> Option<
    JsScreenCaptureConfigView,
> {
    match config {
        Some(c) => Some(c@),
        None => None,
    }
}

/// Validates a caller's configuration and puts it in the form the engines
/// take. The capture configuration, where there is one, gets the defaults
/// for what was left out and cannot make the call fail. The call fails, with
/// `InvalidConfig`, exactly when the processing type is not recognized or
/// the configuration of the selected engine is absent.
pub fn normalize(
    capture: Option<JsScreenCaptureConfig>,
    processor: JsProcessorConfig,
    defaults: &CaptureDefaults,
) -> (r: Result<(Option<ScreenCaptureConfig>, ProcessorConfig), PipelineError>)
    ensures
        match r {
            Ok((c, p)) => {
                &&& processor@.normalized() == Some(p@)
                &&& capture_view(c) == match js_capture_view(capture) {
                    Some(js) => Some(js.normalized(*defaults)),
                    None => None,
                }
            },
            Err(e) => e == PipelineError::InvalidConfig && processor@.normalized().is_none(),
        },
{
    let processor = match ProcessorConfig::from_js(processor) {
        Ok(p) => p,
        Err(e) => {
            return Err(e);
        },
    };
    let capture = match capture {
        Some(c) => Some(ScreenCaptureConfig::from_js(c, defaults)),
        None => None,
    };
    Ok((capture, processor))
}

/// What a list of typed records must satisfy to be the result of a run whose
/// configured processing type is `expected`: frame numbers strictly
/// ascending and none below 1, every record of the configured type, and
/// every timestamp valid.
pub open spec fn valid_records(items: Seq<ImageDataView>, expected: ProcessingType) -> bool {
    &&& forall|i: int, j: int|
        0 <= i < j < items.len() ==> (#[trigger] items[i]).frame_number < (
        #[trigger] items[j]).frame_number
    &&& forall|i: int|
        0 <= i < items.len() ==> {
            &&& (#[trigger] items[i]).frame_number >= 1
            &&& items[i].processing_type == expected
            &&& valid_timestamp(items[i].timestamp)
        }
}

/// The same invariant on a collection in its boundary shape.
pub open spec fn well_formed(items: Seq<JsImageDataView>, expected: ProcessingType) -> bool {
    &&& forall|i: int, j: int|
        0 <= i < j < items.len() ==> (#[trigger] items[i]).frame_number < (
        #[trigger] items[j]).frame_number
    &&& forall|i: int|
        0 <= i < items.len() ==> {
            &&& (#[trigger] items[i]).frame_number >= 1
            &&& items[i].processing_type == expected.tag()
            &&& valid_timestamp(items[i].timestamp)
        }
}

/// What assembling a list of records gives: the records in their boundary
/// shape, one for one and in the order given, when the list is valid and
/// every frame number fits; an internal error otherwise.
pub open spec fn assembled(items: Seq<ImageDataView>, expected: ProcessingType) -> Result<
    Seq<JsImageDataView>,
    PipelineError,
> {
    if valid_records(items, expected) && all_fit_js(items) {
        Ok(to_js_seq(items))
    } else {
        Err(PipelineError::InternalError)
    }
}

/// The outcome of a run with the collection taken by its view.
pub open spec fn outcome_view(r: Result<JsImageDataCollection, PipelineError>) -> Result<
    Seq<JsImageDataView>,
    PipelineError,
> {
    match r {
        Ok(c) => Ok(c@),
        Err(e) => Err(e),
    }
}

/// Decides `valid_records`.
pub fn check_records(items: &Vec<ImageData>, expected: ProcessingType) -> (r: bool)
    ensures
        r == valid_records(image_data_views(items@), expected),
{
    let ghost views = image_data_views(items@);
    let mut last: u64 = 0;
    let mut i: usize = 0;
    while i < items.len()
        invariant
            i <= items.len(),
            views == image_data_views(items@),
            valid_records(views.subrange(0, i as int), expected),
            i > 0 ==> last == views[i - 1].frame_number,
        decreases items.len() - i,
    {
        let item = &items[i];
        assert(item@ == views[i as int]);
        let ok = item.frame_number() >= 1 && (i == 0 || item.frame_number() > last)
            && item.processing_type() == expected && is_valid_timestamp(item.timestamp());
        if !ok {
            proof {
                if valid_records(views, expected) {
                    if i > 0 {
                        assert(views[i - 1].frame_number < views[i as int].frame_number);
                    }
                }
            }
            return false;
        }
        proof {
            let before = views.subrange(0, i as int);
            let after = views.subrange(0, i + 1);
            assert forall|a: int, b: int| 0 <= a < b < after.len() implies (
            #[trigger] after[a]).frame_number < (#[trigger] after[b]).frame_number by {
                if b < i {
                    assert(before[a].frame_number < before[b].frame_number);
                } else if a < i - 1 {
                    assert(before[a].frame_number < before[i - 1].frame_number);
                }
            }
            assert forall|a: int| 0 <= a < after.len() implies {
                &&& (#[trigger] after[a]).frame_number >= 1
                &&& after[a].processing_type == expected
                &&& valid_timestamp(after[a].timestamp)
            } by {
                if a < i {
                    assert(before[a] == after[a]);
                }
            }
        }
        last = item.frame_number();
        i += 1;
    }
    assert(views.subrange(0, i as int) =~= views);
    true
}

/// Turns the records of a run into the collection handed to the caller.
/// Nothing is filtered, reordered or corrected: the collection holds the
/// records as given, or the run ends with `InternalError` because the list
/// breaks the collection's invariant or a frame number does not fit.
pub fn assemble(items: &Vec<ImageData>, expected: ProcessingType) -> (r: Result<
    JsImageDataCollection,
    PipelineError,
>)
    ensures
        outcome_view(r) == assembled(image_data_views(items@), expected),
        r matches Ok(c) ==> well_formed(c@, expected),
{
    if !check_records(items, expected) {
        return Err(PipelineError::InternalError);
    }
    match JsImageDataCollection::from_image_data(items) {
        Some(c) => {
            proof {
                lemma_assembled_well_formed(image_data_views(items@), expected);
            }
            Ok(c)
        },
        None => Err(PipelineError::InternalError),
    }
}

/// What a run ends with once its source and its engine are done: the
/// source's failure if it failed, and nothing of what it had produced; the
/// assembled records otherwise.
pub open spec fn concluded(
    produced: Result<Seq<ImageDataView>, SourceFailure>,
    expected: ProcessingType,
) -> Result<Seq<JsImageDataView>, PipelineError> {
    match produced {
        Ok(items) => assembled(items, expected),
        Err(f) => Err(f.error()),
    }
}

/// The view of what a source and an engine produced together.
pub open spec fn produced_view(produced: Result<Vec<ImageData>, SourceFailure>) -> Result<
    Seq<ImageDataView>,
    SourceFailure,
> {
    match produced {
        Ok(items) => Ok(image_data_views(items@)),
        Err(f) => Err(f),
    }
}

/// Ends a run whose frames were acquired and processed in one piece.
pub fn conclude(produced: Result<Vec<ImageData>, SourceFailure>, expected: ProcessingType) -> (r:
    Result<JsImageDataCollection, PipelineError>)
    ensures
        outcome_view(r) == concluded(produced_view(produced), expected),
        r matches Ok(c) ==> well_formed(c@, expected),
{
    match produced {
        Ok(items) => assemble(&items, expected),
        Err(f) => Err(f.to_error()),
    }
}

/// Whatever is assembled satisfies the collection's invariant and has one
/// record for each record given.
pub proof fn lemma_assembled_well_formed(items: Seq<ImageDataView>, expected: ProcessingType)
    ensures
        assembled(items, expected) matches Ok(c) ==> well_formed(c, expected) && c.len()
            == items.len(),
{
    if valid_records(items, expected) && all_fit_js(items) {
        let c = to_js_seq(items);
        assert forall|i: int, j: int| 0 <= i < j < c.len() implies (#[trigger] c[i]).frame_number
            < (#[trigger] c[j]).frame_number by {
            assert(items[i].fits_js() && items[j].fits_js());
            assert(items[i].frame_number < items[j].frame_number);
        }
        assert forall|i: int| 0 <= i < c.len() implies {
            &&& (#[trigger] c[i]).frame_number >= 1
            &&& c[i].processing_type == expected.tag()
            &&& valid_timestamp(c[i].timestamp)
        } by {
            assert(items[i].fits_js());
        }
    }
}

/// In a well-formed collection no frame number occurs twice, none is below
/// 1, and the frame numbers grow with the position.
pub proof fn lemma_frame_numbers_unique(items: Seq<JsImageDataView>, expected: ProcessingType)
    requires
        well_formed(items, expected),
    ensures
        forall|i: int, j: int|
            0 <= i < items.len() && 0 <= j < items.len() && i != j ==> (
            #[trigger] items[i]).frame_number != (#[trigger] items[j]).frame_number,
        forall|i: int| 0 <= i < items.len() ==> (#[trigger] items[i]).frame_number >= 1,
        forall|i: int| 0 <= i < items.len() ==> (#[trigger] items[i]).frame_number > i,
{
    assert forall|i: int, j: int|
        0 <= i < items.len() && 0 <= j < items.len() && i != j implies (
    #[trigger] items[i]).frame_number != (#[trigger] items[j]).frame_number by {
        if i < j {
            assert(items[i].frame_number < items[j].frame_number);
        } else {
            assert(items[j].frame_number < items[i].frame_number);
        }
    }
    lemma_frame_numbers_grow(items, expected, items.len() as int);
}

/// In a well-formed collection every timestamp is non-empty and valid, and
/// every record carries the tag of the one configured processing type.
pub proof fn lemma_timestamps_and_types(items: Seq<JsImageDataView>, expected: ProcessingType)
    requires
        well_formed(items, expected),
    ensures
        forall|i: int|
            0 <= i < items.len() ==> (#[trigger] items[i]).timestamp.len() > 0 && valid_timestamp(
                items[i].timestamp,
            ),
        forall|i: int|
            0 <= i < items.len() ==> ProcessingType::parse((#[trigger] items[i]).processing_type)
                == Some(expected),
        forall|i: int, j: int|
            0 <= i < items.len() && 0 <= j < items.len() ==> (#[trigger] items[i]).processing_type
                == (#[trigger] items[j]).processing_type,
{
    lemma_tag_round_trip(expected);
}

proof fn lemma_frame_numbers_grow(items: Seq<JsImageDataView>, expected: ProcessingType, n: int)
    requires
        well_formed(items, expected),
        0 <= n <= items.len(),
    ensures
        forall|i: int| 0 <= i < n ==> (#[trigger] items[i]).frame_number > i,
    decreases n,
{
    if n > 0 {
        lemma_frame_numbers_grow(items, expected, n - 1);
        if n >= 2 {
            assert(items[n - 2].frame_number < items[n - 1].frame_number);
        }
    }
}

} // verus!
