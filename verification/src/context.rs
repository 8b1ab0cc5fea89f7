//! The execution context: what every stage is configured with.

use crate::llm::LlmMethod;
use crate::text::{chars_of, string_of};
use vstd::prelude::*;
use vstd::string::StringExecFns;

verus! {

/// The artifacts that the stages keep of a video in the storage directory.
#[derive(Clone, Copy, Debug, PartialEq, Eq, Structural)]
pub enum Artifact {
    /// The downloaded media file.
    Media,
    /// The metadata sidecar that comes with the download.
    Sidecar,
    /// The audio that is derived from the media file.
    Audio,
}

impl Artifact {
    /// What the file name of the artifact ends with.
    pub open spec fn extension(self) -> Seq<char> {
        match self {
            Artifact::Media => seq!['.', 'm', 'p', '4'],
            Artifact::Sidecar => seq!['.', 'j', 's', 'o', 'n'],
            Artifact::Audio => seq!['.', 'a', 'u', 'd', 'i', 'o', '.', 'w', 'a', 'v'],
        }
    }

    /// What the file name of the artifact ends with, as characters.
    pub fn extension_chars(&self) -> (ending: Vec<char>)
        ensures
            ending@ == self.extension(),
    {
        let ending = match self {
            Artifact::Media => vec!['.', 'm', 'p', '4'],
            Artifact::Sidecar => vec!['.', 'j', 's', 'o', 'n'],
            Artifact::Audio => vec!['.', 'a', 'u', 'd', 'i', 'o', '.', 'w', 'a', 'v'],
        };
        assert(ending@ =~= self.extension());
        ending
    }
}

/// The storage directory as the start of a path: with a slash at its end,
/// unless it has one or is empty.
pub open spec fn directory_prefix(reel_dir: Seq<char>) -> Seq<char> {
    if reel_dir.len() == 0 || reel_dir.last() == '/' {
        reel_dir
    } else {
        reel_dir.push('/')
    }
}

/// Where an artifact of the video `reel_id` lies: in the storage directory,
/// under the external id of the video and the extension of the artifact.
pub open spec fn artifact_path(reel_dir: Seq<char>, reel_id: Seq<char>, kind: Artifact) -> Seq<
    char,
> {
    directory_prefix(reel_dir) + reel_id + kind.extension()
}

/// Adds the characters of `more` to the end of `out`.
pub fn append_chars(out: &mut Vec<char>, more: &Vec<char>)
    ensures
        final(out)@ == old(out)@ + more@,
{
    let ghost before = out@;
    let mut i: usize = 0;
    assert(more@.take(0) == Seq::<char>::empty());
    assert(before + Seq::<char>::empty() == before);
    while i < more.len()
        invariant
            i <= more.len(),
            out@ == before + more@.take(i as int),
        decreases more.len() - i,
    {
        out.push(more[i]);
        i = i + 1;
        assert(before + more@.take(i as int) == (before + more@.take(i - 1)).push(more@[i - 1]));
    }
    assert(more@.take(more.len() as int) == more@);
}

/// The configuration that is built once at startup and handed to every stage.
#[derive(Clone, Debug, PartialEq, Eq)]
pub struct JobContext {
    /// The command that runs the downloader.
    pub yt_dlp_command_string: String,
    /// The directory that holds the artifacts of the videos.
    pub reel_dir: String,
    pub whisper_url: String,
    pub whisper_key: String,
    pub completion_url: String,
    pub completion_key: String,
    pub completion_model: String,
    pub completion_mode: LlmMethod,
}

impl JobContext {
    /// The command that runs the downloader where none is configured.
    pub open spec fn default_downloader() -> Seq<char> {
        "yt-dlp"@
    }

    /// Builds the context. Without a path to the downloader, the downloader
    /// is looked for under its usual name.
    pub fn new(
        yt_dlp_path: Option<String>,
        reel_dir: String,
        whisper_url: String,
        whisper_key: String,
        completion_url: String,
        completion_key: String,
        completion_model: String,
        completion_mode: LlmMethod,
    ) -> (context: JobContext)
        ensures
            context.yt_dlp_command_string@ == match yt_dlp_path {
                Some(path) => path@,
                None => Self::default_downloader(),
            },
            context.reel_dir == reel_dir,
            context.whisper_url == whisper_url,
            context.whisper_key == whisper_key,
            context.completion_url == completion_url,
            context.completion_key == completion_key,
            context.completion_model == completion_model,
            context.completion_mode == completion_mode,
    {
        let yt_dlp_command_string = match yt_dlp_path {
            Some(path) => path,
            None => String::from_str("yt-dlp"),
        };
        JobContext {
            yt_dlp_command_string,
            reel_dir,
            whisper_url,
            whisper_key,
            completion_url,
            completion_key,
            completion_model,
            completion_mode,
        }
    }

    /// Tells where an artifact of a video lies.
    pub fn artifact_path(&self, reel_id: &str, kind: Artifact) -> (path: String)
        ensures
            path@ == artifact_path(self.reel_dir@, reel_id@, kind),
    {
        let mut path = chars_of(self.reel_dir.as_str());
        if path.len() > 0 && path[path.len() - 1] != '/' {
            path.push('/');
        }
        append_chars(&mut path, &chars_of(reel_id));
        append_chars(&mut path, &kind.extension_chars());
        string_of(&path)
    }

    /// Tells where the media file of a video lies.
    pub fn video_path(&self, reel_id: &str) -> (path: String)
        ensures
            path@ == artifact_path(self.reel_dir@, reel_id@, Artifact::Media),
    {
        self.artifact_path(reel_id, Artifact::Media)
    }
}

/// Two videos never share an artifact: different external ids give
/// different paths.
pub proof fn law_paths_tell_videos_apart(
    reel_dir: Seq<char>,
    one: Seq<char>,
    other: Seq<char>,
    kind: Artifact,
)
    requires
        one != other,
    ensures
        artifact_path(reel_dir, one, kind) != artifact_path(reel_dir, other, kind),
{
    let base = directory_prefix(reel_dir);
    let a = artifact_path(reel_dir, one, kind);
    let b = artifact_path(reel_dir, other, kind);
    if a == b {
        assert(a.len() == b.len());
        assert(one.len() == other.len());
        assert forall|i: int| 0 <= i < one.len() implies one[i] == other[i] by {
            assert(a[base.len() + i] == one[i]);
            assert(b[base.len() + i] == other[i]);
        }
        assert(one =~= other);
    }
}

/// The artifacts of videos never share a path: the media file, the sidecar
/// and the audio lie at three different paths, whichever videos they belong
/// to.
pub proof fn law_paths_tell_artifacts_apart(
    reel_dir: Seq<char>,
    one: Seq<char>,
    other: Seq<char>,
    kind: Artifact,
    other_kind: Artifact,
)
    requires
        kind != other_kind,
    ensures
        artifact_path(reel_dir, one, kind) != artifact_path(reel_dir, other, other_kind),
{
    let a = artifact_path(reel_dir, one, kind);
    let b = artifact_path(reel_dir, other, other_kind);
    assert(a.last() == kind.extension().last());
    assert(b.last() == other_kind.extension().last());
}

} // verus!
