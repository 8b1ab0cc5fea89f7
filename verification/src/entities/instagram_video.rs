//! The stored video.

use crate::fetch::ReelInfo;
use crate::prompt::transcript_text;
use crate::transcribe::Transcript;
use vstd::prelude::*;

verus! {

/// A video as the store holds it: created once by the fetch stage, and given
/// its transcript by the transcribe stage.
#[derive(Debug, PartialEq, Eq)]
pub struct Model {
    pub id: i32,
    /// The external id of the video, which no other video has.
    pub instagram_id: String,
    pub video_url: String,
    /// What the source says of the video, its caption among it.
    pub info: ReelInfo,
    pub transcript: Option<Transcript>,
}

impl Model {
    /// The caption of the video.
    pub open spec fn caption(self) -> Seq<char> {
        self.info.description@
    }

    /// What is said in the video, as far as it is known: the text of the
    /// transcript, and nothing before the video has one.
    pub open spec fn spoken(self) -> Seq<char> {
        transcript_text(
            match self.transcript {
                Some(transcript) => Some(transcript.text@),
                None => None,
            },
        )
    }

    /// The text of the transcript, where the video has one.
    pub fn transcript_text(&self) -> (text: Option<&String>)
        ensures
            match text {
                Some(text) => self.transcript matches Some(transcript) && *text == transcript.text,
                None => self.transcript is None,
            },
    {
        match &self.transcript {
            Some(transcript) => Some(&transcript.text),
            None => None,
        }
    }
}

} // verus!
