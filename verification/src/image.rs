use crate::types::{lemma_parse_gives_tag, lemma_tag_round_trip, ProcessingType};
use vstd::prelude::*;

verus! {

/// One processed frame as the engines know it: the processing type is a
/// typed tag and the frame number has the engines' full width.
#[derive(Clone, Debug)]
pub struct ImageData {
    timestamp: String,
    frame_number: u64,
    content: String,
    processing_type: ProcessingType,
}

/// What a typed record holds.
pub struct ImageDataView {
    pub timestamp: Seq<char>,
    pub frame_number: u64,
    pub content: Seq<char>,
    pub processing_type: ProcessingType,
}

impl View for ImageData {
    type V = ImageDataView;

    closed spec fn view(&self) -> ImageDataView {
        ImageDataView {
            timestamp: self.timestamp@,
            frame_number: self.frame_number,
            content: self.content@,
            processing_type: self.processing_type,
        }
    }
}

impl ImageData {
    /// A record of exactly these four values.
    pub fn new(
        timestamp: String,
        frame_number: u64,
        content: String,
        processing_type: ProcessingType,
    ) -> (r: ImageData)
        ensures
            r@ == (ImageDataView {
                timestamp: timestamp@,
                frame_number,
                content: content@,
                processing_type,
            }),
    {
        ImageData { timestamp, frame_number, content, processing_type }
    }

    /// When the frame was captured or extracted.
    pub fn timestamp(&self) -> (r: &str)
        ensures
            r@ == self@.timestamp,
    {
        self.timestamp.as_str()
    }

    /// The frame's number within its run.
    pub fn frame_number(&self) -> (r: u64)
        ensures
            r == self@.frame_number,
    {
        self.frame_number
    }

    /// What the engine made of the frame: recognized text or a description.
    pub fn content(&self) -> (r: &str)
        ensures
            r@ == self@.content,
    {
        self.content.as_str()
    }

    /// The engine that produced the content.
    pub fn processing_type(&self) -> (r: ProcessingType)
        ensures
            r == self@.processing_type,
    {
        self.processing_type
    }
}

/// One processed frame in the shape it crosses the boundary in: the
/// processing type is written out as its tag.
#[derive(Clone, Debug)]
pub struct JsImageData {
    pub timestamp: String,
    pub frame_number: u32,
    pub content: String,
    pub processing_type: String,
}

/// What a boundary record holds.
pub struct JsImageDataView {
    pub timestamp: Seq<char>,
    pub frame_number: u32,
    pub content: Seq<char>,
    pub processing_type: Seq<char>,
}

impl View for JsImageData {
    type V = JsImageDataView;

    open spec fn view(&self) -> JsImageDataView {
        JsImageDataView {
            timestamp: self.timestamp@,
            frame_number: self.frame_number,
            content: self.content@,
            processing_type: self.processing_type@,
        }
    }
}

impl ImageDataView {
    /// Whether the frame number fits the boundary record.
    pub open spec fn fits_js(self) -> bool {
        self.frame_number <= u32::MAX
    }

    /// The boundary record with the same timestamp, frame number and
    /// content, and the processing type's tag.
    pub open spec fn to_js(self) -> JsImageDataView
        recommends
            self.fits_js(),
    {
        JsImageDataView {
            timestamp: self.timestamp,
            frame_number: self.frame_number as u32,
            content: self.content,
            processing_type: self.processing_type.tag(),
        }
    }
}

impl JsImageDataView {
    /// The typed record, where the tag names a processing type.
    pub open spec fn to_image_data(self) -> Option<ImageDataView> {
        match ProcessingType::parse(self.processing_type) {
            Some(t) => Some(
                ImageDataView {
                    timestamp: self.timestamp,
                    frame_number: self.frame_number as u64,
                    content: self.content,
                    processing_type: t,
                },
            ),
            None => None,
        }
    }
}

impl JsImageData {
    /// Writes a typed record in the boundary shape. `None` exactly when the
    /// frame number does not fit; no field is ever cut or changed.
    pub fn from_image_data(data: &ImageData) -> (r: Option<JsImageData>)
        ensures
            data@.fits_js() ==> r.is_some() && r.unwrap()@ == data@.to_js(),
            !data@.fits_js() ==> r.is_none(),
    {
        if data.frame_number() > 0xffff_ffff {
            return None;
        }
        Some(
            JsImageData {
                timestamp: data.timestamp().to_owned(),
                frame_number: data.frame_number() as u32,
                content: data.content().to_owned(),
                processing_type: data.processing_type().to_string(),
            },
        )
    }

    /// Reads a boundary record as a typed one. `None` exactly when the tag
    /// names no processing type.
    pub fn into_image_data(self) -> (r: Option<ImageData>)
        ensures
            match r {
                Some(d) => self@.to_image_data() == Some(d@),
                None => self@.to_image_data().is_none(),
            },
    {
        match ProcessingType::try_from(self.processing_type.as_str()) {
            Some(t) => Some(
                ImageData::new(self.timestamp, self.frame_number as u64, self.content, t),
            ),
            None => None,
        }
    }
}

/// The two shapes of a record hold the same: a typed record whose frame
/// number fits is read back unchanged from its boundary shape, and a boundary
/// record that can be read is written back unchanged.
pub proof fn lemma_record_round_trip(typed: ImageDataView, js: JsImageDataView)
    ensures
        typed.fits_js() ==> typed.to_js().to_image_data() == Some(typed),
        js.to_image_data() matches Some(d) ==> d.fits_js() && d.to_js() == js,
{
    lemma_tag_round_trip(typed.processing_type);
    lemma_parse_gives_tag(js.processing_type);
}

/// The records of one run in the shape they cross the boundary in, in the
/// order the frames were produced.
#[derive(Clone, Debug)]
pub struct JsImageDataCollection {
    pub data: Vec<JsImageData>,
}

impl View for JsImageDataCollection {
    type V = Seq<JsImageDataView>;

    open spec fn view(&self) -> Seq<JsImageDataView> {
        self.data@.map_values(|d: JsImageData| d@)
    }
}

/// The views of a list of typed records.
pub open spec fn image_data_views(items: Seq<ImageData>) -> Seq<ImageDataView> {
    items.map_values(|d: ImageData| d@)
}

/// Whether every frame number of a list fits the boundary record.
pub open spec fn all_fit_js(items: Seq<ImageDataView>) -> bool {
    forall|i: int| 0 <= i < items.len() ==> (#[trigger] items[i]).fits_js()
}

/// The boundary records of a list of typed records, one for one, in order.
pub open spec fn to_js_seq(items: Seq<ImageDataView>) -> Seq<JsImageDataView> {
    items.map_values(|d: ImageDataView| d.to_js())
}

/// Whether every tag of a list names a processing type.
pub open spec fn all_typed(items: Seq<JsImageDataView>) -> bool {
    forall|i: int| 0 <= i < items.len() ==> (#[trigger] items[i]).to_image_data().is_some()
}

/// The typed records of a list of boundary records, one for one, in order.
pub open spec fn to_image_data_seq(items: Seq<JsImageDataView>) -> Seq<ImageDataView>
    recommends
        all_typed(items),
{
    items.map_values(|d: JsImageDataView| d.to_image_data().unwrap())
}

impl JsImageDataCollection {
    /// Writes typed records in the boundary shape, one for one and in order.
    /// `None` exactly when some frame number does not fit.
    pub fn from_image_data(items: &Vec<ImageData>) -> (r: Option<JsImageDataCollection>)
        ensures
            match r {
                Some(c) => all_fit_js(image_data_views(items@)) && c@ == to_js_seq(
                    image_data_views(items@),
                ),
                None => !all_fit_js(image_data_views(items@)),
            },
    {
        let ghost views = image_data_views(items@);
        let mut data: Vec<JsImageData> = Vec::new();
        let mut i: usize = 0;
        while i < items.len()
            invariant
                i <= items.len(),
                views == image_data_views(items@),
                data.len() == i,
                forall|k: int| 0 <= k < i ==> (#[trigger] views[k]).fits_js(),
                forall|k: int| 0 <= k < i ==> (#[trigger] data[k])@ == views[k].to_js(),
            decreases items.len() - i,
        {
            match JsImageData::from_image_data(&items[i]) {
                Some(d) => {
                    data.push(d);
                },
                None => {
                    assert(!views[i as int].fits_js());
                    return None;
                },
            }
            i += 1;
        }
        let r = JsImageDataCollection { data };
        assert(r@ =~= to_js_seq(views));
        Some(r)
    }

    /// Reads boundary records as typed ones, one for one and in order. `None`
    /// exactly when some tag names no processing type.
    pub fn into_image_data(self) -> (r: Option<Vec<ImageData>>)
        ensures
            match r {
                Some(v) => all_typed(self@) && image_data_views(v@) == to_image_data_seq(self@),
                None => !all_typed(self@),
            },
    {
        let ghost views = self@;
        let mut out: Vec<ImageData> = Vec::new();
        for d in it: self.data
            invariant
                views == self@,
                it.seq() == self.data@,
                out.len() == it.index(),
                forall|k: int|
                    0 <= k < out.len() ==> (#[trigger] views[k]).to_image_data().is_some(),
                forall|k: int|
                    0 <= k < out.len() ==> (#[trigger] out[k])@
                        == views[k].to_image_data().unwrap(),
        {
            assert(d@ == views[out.len() as int]);
            match d.into_image_data() {
                Some(t) => {
                    out.push(t);
                },
                None => {
                    return None;
                },
            }
        }
        assert(image_data_views(out@) =~= to_image_data_seq(views));
        Some(out)
    }
}

} // verus!
