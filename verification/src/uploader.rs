use crate::error::PipelineError;
use crate::types::{JsProcessorConfig, ProcessorConfig, ProcessorConfigView};
use vstd::prelude::*;
use vstd::std_specs::convert::FromSpecImpl;

verus! {

/// Names the file an upload run reads its frames from.
#[derive(Clone, Debug)]
pub struct JsUploaderConfig {
    pub file: String,
}

impl View for JsUploaderConfig {
    type V = Seq<char>;

    open spec fn view(&self) -> Seq<char> {
        self.file@
    }
}

impl From<JsUploaderConfig> for String {
    /// The path the configuration names.
    fn from(config: JsUploaderConfig) -> (r: String) {
        config.file
    }
}

impl FromSpecImpl<JsUploaderConfig> for String {
    open spec fn obeys_from_spec() -> bool {
        true
    }

    open spec fn from_spec(config: JsUploaderConfig) -> String {
        config.file
    }
}

impl From<String> for JsUploaderConfig {
    /// The configuration that names this path.
    fn from(file: String) -> (r: JsUploaderConfig) {
        JsUploaderConfig { file }
    }
}

impl FromSpecImpl<String> for JsUploaderConfig {
    open spec fn obeys_from_spec() -> bool {
        true
    }

    open spec fn from_spec(file: String) -> JsUploaderConfig {
        JsUploaderConfig { file }
    }
}

/// What an upload run is started with: the path handed to the decode
/// engine and the configuration of the selected inference engine.
#[derive(Clone, Debug)]
pub struct UploadRequest {
    pub file_path: String,
    pub processor: ProcessorConfig,
}

/// The view of [`UploadRequest`]: the same contents, with each text as its sequence of
/// characters.
pub struct UploadRequestView {
    pub file_path: Seq<char>,
    pub processor: ProcessorConfigView,
}

impl View for UploadRequest {
    type V = UploadRequestView;

    open spec fn view(&self) -> UploadRequestView {
        UploadRequestView { file_path: self.file_path@, processor: self.processor@ }
    }
}

/// Validates what an upload run is called with. The path is handed through
/// as written; whether it resolves is for the decode engine to find. The
/// call fails, with `InvalidConfig`, exactly when the processing type is not
/// recognized or the configuration of the selected engine is absent.
pub fn prepare_upload(uploader_config: JsUploaderConfig, processor_config: JsProcessorConfig) -> (r:
    Result<UploadRequest, PipelineError>)
    ensures
        match r {
            Ok(request) => processor_config@.normalized() == Some(request@.processor)
                && request@.file_path == uploader_config@,
            Err(e) => e == PipelineError::InvalidConfig && processor_config@.normalized().is_none(),
        },
{
    match ProcessorConfig::from_js(processor_config) {
        Ok(processor) => Ok(UploadRequest { file_path: String::from(uploader_config), processor }),
        Err(e) => Err(e),
    }
}

/// Numbers the frames of an upload in the order they are decoded: 1, 2, 3
/// and so on.
#[derive(Debug)]
pub struct FrameNumbering {
    issued: u64,
}

impl FrameNumbering {
    /// How many numbers have been given out.
    pub closed spec fn issued(&self) -> nat {
        self.issued as nat
    }

    /// A numbering that has given out no number yet.
    pub fn new() -> (r: FrameNumbering)
        ensures
            r.issued() == 0,
    {
        FrameNumbering { issued: 0 }
    }

    /// The number of the next frame: one more than the count of numbers
    /// given out before, so the first is 1 and each is greater than the one
    /// before it. `None`, with nothing changed, exactly when that number
    /// would not fit.
    pub fn next(&mut self) -> (r: Option<u64>)
        ensures
            old(self).issued() < u64::MAX ==> r == Some((old(self).issued() + 1) as u64)
                && final(self).issued() == old(self).issued() + 1,
            old(self).issued() >= u64::MAX ==> r.is_none() && final(self).issued() == old(
                self,
            ).issued(),
    {
        if self.issued == u64::MAX {
            None
        } else {
            self.issued = self.issued + 1;
            Some(self.issued)
        }
    }
}

} // verus!
