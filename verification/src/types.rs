use crate::error::PipelineError;
use vstd::prelude::*;

verus! {

/// Which inference engine produces the content of a record.
#[derive(Clone, Copy, Debug, PartialEq, Eq, Structural)]
pub enum ProcessingType {
    OCR,
    Vision,
}

impl ProcessingType {
    /// The tag a processing type is written as.
    pub open spec fn tag(self) -> Seq<char> {
        match self {
            ProcessingType::OCR => "OCR"@,
            ProcessingType::Vision => "Vision"@,
        }
    }

    /// The processing type a tag names, if it names one. The match is exact
    /// and case-sensitive.
    pub open spec fn parse(tag: Seq<char>) -> Option<ProcessingType> {
        if tag == "OCR"@ {
            Some(ProcessingType::OCR)
        } else if tag == "Vision"@ {
            Some(ProcessingType::Vision)
        } else {
            None
        }
    }

    /// Reads a tag. `None` exactly when the tag is neither `OCR` nor `Vision`.
    pub fn try_from(tag: &str) -> (r: Option<ProcessingType>)
        ensures
            r == Self::parse(tag@),
    {
        let owned = tag.to_owned();
        if owned == "OCR".to_owned() {
            Some(ProcessingType::OCR)
        } else if owned == "Vision".to_owned() {
            Some(ProcessingType::Vision)
        } else {
            None
        }
    }

    /// Writes the tag.
    pub fn to_string(&self) -> (r: String)
        ensures
            r@ == self.tag(),
    {
        match self {
            ProcessingType::OCR => "OCR".to_owned(),
            ProcessingType::Vision => "Vision".to_owned(),
        }
    }
}

/// The two tags are different strings, so reading a written tag gives the
/// processing type back.
pub proof fn lemma_tag_round_trip(t: ProcessingType)
    ensures
        ProcessingType::parse(t.tag()) == Some(t),
{
    reveal_strlit("OCR");
    reveal_strlit("Vision");
    assert("OCR"@.len() != "Vision"@.len());
}

/// A tag that reads as a processing type is the tag that type is written as.
pub proof fn lemma_parse_gives_tag(tag: Seq<char>)
    ensures
        ProcessingType::parse(tag) matches Some(t) ==> t.tag() == tag,
{
}

/// Settings of the text-recognition engine. The core hands them through
/// without reading them.
#[derive(Clone, Debug)]
pub struct OcrConfig {
    pub ocr_model: String,
    pub bounding_boxes: Option<bool>,
    pub dpi: Option<u32>,
    pub psm: Option<u32>,
    pub oem: Option<u32>,
}

/// The view of [`OcrConfig`]: the same contents, with each text as its sequence of
/// characters.
pub struct OcrConfigView {
    pub ocr_model: Seq<char>,
    pub bounding_boxes: Option<bool>,
    pub dpi: Option<u32>,
    pub psm: Option<u32>,
    pub oem: Option<u32>,
}

impl View for OcrConfig {
    type V = OcrConfigView;

    open spec fn view(&self) -> OcrConfigView {
        OcrConfigView {
            ocr_model: self.ocr_model@,
            bounding_boxes: self.bounding_boxes,
            dpi: self.dpi,
            psm: self.psm,
            oem: self.oem,
        }
    }
}

/// Settings of the vision-model engine. The core hands them through without
/// reading them.
#[derive(Clone, Debug)]
pub struct VisionConfig {
    pub url: Option<String>,
    pub api_key: Option<String>,
    pub model: Option<String>,
    pub prompt: Option<String>,
}

/// The view of [`VisionConfig`]: the same contents, with each text as its sequence of
/// characters.
pub struct VisionConfigView {
    pub url: Option<Seq<char>>,
    pub api_key: Option<Seq<char>>,
    pub model: Option<Seq<char>>,
    pub prompt: Option<Seq<char>>,
}

pub open spec fn text_view(s: Option<String>) -> Option<Seq<char>> {
    match s {
        Some(t) => Some(t@),
        None => None,
    }
}

impl View for VisionConfig {
    type V = VisionConfigView;

    open spec fn view(&self) -> VisionConfigView {
        VisionConfigView {
            url: text_view(self.url),
            api_key: text_view(self.api_key),
            model: text_view(self.model),
            prompt: text_view(self.prompt),
        }
    }
}

/// The processor configuration as a caller writes it: a tag and one optional
/// configuration per engine.
#[derive(Clone, Debug)]
pub struct JsProcessorConfig {
    pub processing_type: String,
    pub ocr_config: Option<OcrConfig>,
    pub vision_config: Option<VisionConfig>,
}

/// The view of [`JsProcessorConfig`]: the same contents, with each text as its sequence of
/// characters.
pub struct JsProcessorConfigView {
    pub processing_type: Seq<char>,
    pub ocr_config: Option<OcrConfigView>,
    pub vision_config: Option<VisionConfigView>,
}

impl View for JsProcessorConfig {
    type V = JsProcessorConfigView;

    open spec fn view(&self) -> JsProcessorConfigView {
        JsProcessorConfigView {
            processing_type: self.processing_type@,
            ocr_config: match self.ocr_config {
                Some(c) => Some(c@),
                None => None,
            },
            vision_config: match self.vision_config {
                Some(c) => Some(c@),
                None => None,
            },
        }
    }
}

/// The processor configuration in its engine-facing form: exactly one engine,
/// with its own configuration.
#[derive(Clone, Debug)]
pub enum ProcessorConfig {
    OCR(OcrConfig),
    Vision(VisionConfig),
}

/// The view of [`ProcessorConfig`]: the same contents, with each text as its sequence of
/// characters.
pub enum ProcessorConfigView {
    OCR(OcrConfigView),
    Vision(VisionConfigView),
}

impl View for ProcessorConfig {
    type V = ProcessorConfigView;

    open spec fn view(&self) -> ProcessorConfigView {
        match self {
            ProcessorConfig::OCR(c) => ProcessorConfigView::OCR(c@),
            ProcessorConfig::Vision(c) => ProcessorConfigView::Vision(c@),
        }
    }
}

impl ProcessorConfigView {
    /// The engine this configuration selects.
    pub open spec fn processing_type(self) -> ProcessingType {
        match self {
            ProcessorConfigView::OCR(_) => ProcessingType::OCR,
            ProcessorConfigView::Vision(_) => ProcessingType::Vision,
        }
    }

    /// The caller-facing form: the engine's tag, the selected configuration,
    /// and nothing for the other engine.
    pub open spec fn to_js(self) -> JsProcessorConfigView {
        match self {
            ProcessorConfigView::OCR(c) => JsProcessorConfigView {
                processing_type: ProcessingType::OCR.tag(),
                ocr_config: Some(c),
                vision_config: None,
            },
            ProcessorConfigView::Vision(c) => JsProcessorConfigView {
                processing_type: ProcessingType::Vision.tag(),
                ocr_config: None,
                vision_config: Some(c),
            },
        }
    }
}

impl JsProcessorConfigView {
    /// The engine-facing form of a caller's configuration. It exists when the
    /// tag names an engine and that engine's configuration is present; the
    /// other engine's configuration is left out of it.
    pub open spec fn normalized(self) -> Option<ProcessorConfigView> {
        match ProcessingType::parse(self.processing_type) {
            Some(ProcessingType::OCR) => match self.ocr_config {
                Some(c) => Some(ProcessorConfigView::OCR(c)),
                None => None,
            },
            Some(ProcessingType::Vision) => match self.vision_config {
                Some(c) => Some(ProcessorConfigView::Vision(c)),
                None => None,
            },
            None => None,
        }
    }
}

impl ProcessorConfig {
    /// The engine this configuration selects.
    pub fn processing_type(&self) -> (r: ProcessingType)
        ensures
            r == self@.processing_type(),
    {
        match self {
            ProcessorConfig::OCR(_) => ProcessingType::OCR,
            ProcessorConfig::Vision(_) => ProcessingType::Vision,
        }
    }

    /// Resolves a caller's configuration to one engine. Fails with
    /// `InvalidConfig`, and with no other error, exactly when the tag names no
    /// engine or the named engine's configuration is absent.
    pub fn from_js(config: JsProcessorConfig) -> (r: Result<ProcessorConfig, PipelineError>)
        ensures
            match r {
                Ok(c) => config@.normalized() == Some(c@),
                Err(e) => e == PipelineError::InvalidConfig && config@.normalized().is_none(),
            },
    {
        match ProcessingType::try_from(config.processing_type.as_str()) {
            Some(ProcessingType::OCR) => match config.ocr_config {
                Some(c) => Ok(ProcessorConfig::OCR(c)),
                None => Err(PipelineError::InvalidConfig),
            },
            Some(ProcessingType::Vision) => match config.vision_config {
                Some(c) => Ok(ProcessorConfig::Vision(c)),
                None => Err(PipelineError::InvalidConfig),
            },
            None => Err(PipelineError::InvalidConfig),
        }
    }

    /// Writes the configuration back in the caller-facing form.
    pub fn to_js(self) -> (r: JsProcessorConfig)
        ensures
            r@ == self@.to_js(),
    {
        match self {
            ProcessorConfig::OCR(c) => JsProcessorConfig {
                processing_type: ProcessingType::OCR.to_string(),
                ocr_config: Some(c),
                vision_config: None,
            },
            ProcessorConfig::Vision(c) => JsProcessorConfig {
                processing_type: ProcessingType::Vision.to_string(),
                ocr_config: None,
                vision_config: Some(c),
            },
        }
    }
}

/// A caller's configuration resolves exactly when its tag is `OCR` and the
/// text-recognition configuration is present, or its tag is `Vision` and the
/// vision configuration is present. So it is rejected when the selected
/// engine's configuration is absent, whatever stands for the other engine,
/// and when the tag is any other text.
pub proof fn lemma_when_config_resolves(js: JsProcessorConfigView)
    ensures
        js.normalized().is_some() <==> (js.processing_type == "OCR"@ && js.ocr_config.is_some())
            || (js.processing_type == "Vision"@ && js.vision_config.is_some()),
        js.processing_type == "Vision"@ && js.vision_config.is_none()
            ==> js.normalized().is_none(),
        js.processing_type == "OCR"@ && js.ocr_config.is_none() ==> js.normalized().is_none(),
        js.processing_type != "OCR"@ && js.processing_type != "Vision"@
            ==> js.normalized().is_none(),
{
    lemma_tag_round_trip(ProcessingType::OCR);
    lemma_tag_round_trip(ProcessingType::Vision);
}

/// Going to the engine-facing form and back keeps the tag and every field of
/// the selected engine's configuration.
pub proof fn lemma_normalize_then_back(js: JsProcessorConfigView)
    requires
        js.normalized().is_some(),
    ensures
        js.normalized().unwrap().to_js().processing_type == js.processing_type,
        js.normalized().unwrap() is OCR ==> js.normalized().unwrap().to_js().ocr_config
            == js.ocr_config,
        js.normalized().unwrap() is Vision ==> js.normalized().unwrap().to_js().vision_config
            == js.vision_config,
{
    lemma_parse_gives_tag(js.processing_type);
}

/// Writing an engine-facing configuration in the caller-facing form and
/// resolving it again gives the same configuration.
pub proof fn lemma_back_then_normalize(config: ProcessorConfigView)
    ensures
        config.to_js().normalized() == Some(config),
{
    lemma_tag_round_trip(config.processing_type());
}

} // verus!
