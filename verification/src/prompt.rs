//! The prompt that asks a model for the recipes of a video.

use vstd::prelude::*;

verus! {

/// What `minijinja` renders from a template in which `description` and
/// `transcript` are the only variables; `None` where the template does not
/// compile or does not render.
pub uninterp spec fn rendered(
    template: Seq<char>,
    description: Seq<char>,
    transcript: Seq<char>,
) -> Option<Seq<char>>;

/// Adds the template to a fresh `minijinja::Environment` under the name
/// `prompt` (`Environment::add_template`), gets it back
/// (`Environment::get_template`) and renders it (`Template::render`) with the
/// two variables `description` and `transcript`. The result is the rendered
/// text, and `None` where any of the three calls returns an error.
#[verifier::external_body]
fn render_prompt(template: &str, description: &str, transcript: &str) -> (out: Option<String>)
    ensures
        match out {
            Some(text) => rendered(template@, description@, transcript@) == Some(text@),
            None => rendered(template@, description@, transcript@).is_none(),
        },
{
    let mut env = minijinja::Environment::new();
    env.add_template("prompt", template).ok()?;
    let context = std::collections::BTreeMap::from(
        [("description", description), ("transcript", transcript)],
    );
    env.get_template("prompt").ok()?.render(context).ok()
}

/// The text that stands for the transcript of a video in the prompt: the
/// transcript, and nothing where the video has none yet.
pub open spec fn transcript_text(transcript: Option<Seq<char>>) -> Seq<char> {
    match transcript {
        Some(text) => text,
        None => Seq::empty(),
    }
}

/// Renders the prompt for a video from its caption and its transcript. A
/// video without a transcript is rendered with an empty one. `None` where
/// the template cannot be rendered.
pub fn assemble_prompt(template: &str, description: &str, transcript: Option<&String>) -> (out:
    Option<String>)
    ensures
        match out {
            Some(text) => rendered(
                template@,
                description@,
                transcript_text(
                    match transcript {
                        Some(t) => Some(t@),
                        None => None,
                    },
                ),
            ) == Some(text@),
            None => rendered(
                template@,
                description@,
                transcript_text(
                    match transcript {
                        Some(t) => Some(t@),
                        None => None,
                    },
                ),
            ).is_none(),
        },
{
    match transcript {
        Some(text) => render_prompt(template, description, text.as_str()),
        None => {
            let empty = String::new();
            render_prompt(template, description, empty.as_str())
        },
    }
}

} // verus!
