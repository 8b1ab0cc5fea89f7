//! The response normalizer: from what a model wrote to a list of recipes.

use crate::error::PipelineError;
use crate::json::{items_view, parse_json, parsed_json, Json, JsonValue};
use crate::text::{
    all_space, fence, fence_close, fence_open, fence_tag, law_fence_is_stripped,
    law_fenced_lines_are_stripped, law_unfenced_text_is_kept, payload_text, strip_code_fence, trim,
};
use vstd::prelude::*;

verus! {

/// A recipe as a model describes it.
#[derive(Clone, Debug, PartialEq, Eq)]
pub struct ExtractedRecipe {
    pub title: String,
    pub ingredients: Vec<String>,
    pub instructions: Vec<String>,
}

/// The mathematical model of a recipe.
pub struct RecipeView {
    pub title: Seq<char>,
    pub ingredients: Seq<Seq<char>>,
    pub instructions: Seq<Seq<char>>,
}

impl View for ExtractedRecipe {
    type V = RecipeView;

    open spec fn view(&self) -> RecipeView {
        RecipeView {
            title: self.title@,
            ingredients: self.ingredients.deep_view(),
            instructions: self.instructions.deep_view(),
        }
    }
}

impl DeepView for ExtractedRecipe {
    type V = RecipeView;

    open spec fn deep_view(&self) -> RecipeView {
        self@
    }
}

/// The two envelopes in which a model may hand over its recipes: a bare
/// list, or an object whose member `recipes` is the list.
#[derive(Clone, Debug, PartialEq, Eq)]
pub enum AcceptableResponses {
    Array(Vec<ExtractedRecipe>),
    Object { recipes: Vec<ExtractedRecipe> },
}

impl AcceptableResponses {
    /// The recipes in the envelope.
    pub open spec fn listed(self) -> Vec<ExtractedRecipe> {
        match self {
            AcceptableResponses::Array(recipes) => recipes,
            AcceptableResponses::Object { recipes } => recipes,
        }
    }

    /// Takes the recipes out of the envelope.
    pub fn retrieve(self) -> (recipes: Vec<ExtractedRecipe>)
        ensures
            recipes == self.listed(),
    {
        match self {
            AcceptableResponses::Array(recipes) => recipes,
            AcceptableResponses::Object { recipes } => recipes,
        }
    }
}

/// The strings of a document that is an array of strings.
pub open spec fn string_list(v: JsonValue) -> Option<Seq<Seq<char>>> {
    match v {
        JsonValue::Array(items) => if forall|i: int|
            0 <= i < items.len() ==> (#[trigger] items[i]) is Str {
            Some(Seq::new(items.len(), |i: int| items[i]->Str_0))
        } else {
            None
        },
        _ => None,
    }
}

/// The recipe that a document describes: an object whose member `title` is a
/// string and whose members `ingredients` and `instructions` are arrays of
/// strings. Other members are ignored.
pub open spec fn recipe(v: JsonValue) -> Option<RecipeView> {
    match (v.member("title"@), v.member("ingredients"@), v.member("instructions"@)) {
        (Some(JsonValue::Str(title)), Some(ingredients), Some(instructions)) => match (
            string_list(ingredients),
            string_list(instructions),
        ) {
            (Some(ingredients), Some(instructions)) => Some(
                RecipeView { title, ingredients, instructions },
            ),
            _ => None,
        },
        _ => None,
    }
}

/// The recipes of a document that is an array of recipes.
pub open spec fn recipe_list(v: JsonValue) -> Option<Seq<RecipeView>> {
    match v {
        JsonValue::Array(items) => if forall|i: int|
            0 <= i < items.len() ==> recipe(#[trigger] items[i]) is Some {
            Some(Seq::new(items.len(), |i: int| recipe(items[i])->Some_0))
        } else {
            None
        },
        _ => None,
    }
}

/// The recipes that a document hands over, in either envelope: the document
/// is an array of recipes, or an object whose member `recipes` is one.
pub open spec fn accepted(v: JsonValue) -> Option<Seq<RecipeView>> {
    match v {
        JsonValue::Array(_) => recipe_list(v),
        JsonValue::Object(_) => match v.member("recipes"@) {
            Some(list) => recipe_list(list),
            None => None,
        },
        _ => None,
    }
}

/// The recipes in the text of a completion: the text is stripped of its code
/// fence, parsed as JSON and read in either envelope.
pub open spec fn normalization(content: Seq<char>) -> Option<Seq<RecipeView>> {
    match parsed_json(payload_text(content)) {
        Some(v) => accepted(v),
        None => None,
    }
}

/// Whether `out` is what normalizing gives for a payload and what it parsed to:
/// the recipes where the document hands some over, and else a shape error
/// that carries the payload.
pub open spec fn normalized(
    payload: Seq<char>,
    parsed: Option<JsonValue>,
    out: Result<Vec<ExtractedRecipe>, PipelineError>,
) -> bool {
    let recipes = match parsed {
        Some(v) => accepted(v),
        None => None,
    };
    match recipes {
        Some(list) => out matches Ok(found) && found.deep_view() == list,
        None => out matches Err(PipelineError::ResponseShapeError { detail }) && detail@ == payload,
    }
}

/// Reads an array of strings.
pub fn strings_of(json: &Json) -> (out: Option<Vec<String>>)
    ensures
        match out {
            Some(list) => string_list(json@) == Some(list.deep_view()),
            None => string_list(json@).is_none(),
        },
{
    let items = match json.as_array() {
        Some(items) => items,
        None => {
            return None;
        },
    };
    let ghost model = items_view(items@);
    let mut out: Vec<String> = Vec::new();
    let mut i: usize = 0;
    while i < items.len()
        invariant
            i <= items.len(),
            model == items_view(items@),
            json@ == JsonValue::Array(model),
            out@.len() == i,
            forall|j: int| 0 <= j < i ==> (#[trigger] model[j]) is Str && out@[j]@ == model[j]->Str_0,
        decreases items.len() - i,
    {
        match items[i].as_str() {
            Some(s) => {
                out.push(s.clone());
            },
            None => {
                assert(!(model[i as int] is Str));
                return None;
            },
        }
        i = i + 1;
    }
    assert(out.deep_view() =~= Seq::new(model.len(), |i: int| model[i]->Str_0));
    Some(out)
}

/// Reads one recipe.
pub fn recipe_of(json: &Json) -> (out: Option<ExtractedRecipe>)
    ensures
        match out {
            Some(found) => recipe(json@) == Some(found@),
            None => recipe(json@).is_none(),
        },
{
    let title = match json.get("title") {
        Some(value) => match value.as_str() {
            Some(title) => title.clone(),
            None => {
                return None;
            },
        },
        None => {
            return None;
        },
    };
    let ingredients = match json.get("ingredients") {
        Some(value) => value,
        None => {
            return None;
        },
    };
    let instructions = match json.get("instructions") {
        Some(value) => value,
        None => {
            return None;
        },
    };
    let ingredients = match strings_of(ingredients) {
        Some(list) => list,
        None => {
            return None;
        },
    };
    let instructions = match strings_of(instructions) {
        Some(list) => list,
        None => {
            return None;
        },
    };
    Some(ExtractedRecipe { title, ingredients, instructions })
}

/// Reads an array of recipes.
pub fn recipe_list_of(json: &Json) -> (out: Option<Vec<ExtractedRecipe>>)
    ensures
        match out {
            Some(list) => recipe_list(json@) == Some(list.deep_view()),
            None => recipe_list(json@).is_none(),
        },
{
    let items = match json.as_array() {
        Some(items) => items,
        None => {
            return None;
        },
    };
    let ghost model = items_view(items@);
    let mut out: Vec<ExtractedRecipe> = Vec::new();
    let mut i: usize = 0;
    while i < items.len()
        invariant
            i <= items.len(),
            model == items_view(items@),
            json@ == JsonValue::Array(model),
            out@.len() == i,
            forall|j: int|
                0 <= j < i ==> recipe(#[trigger] model[j]) is Some && out@[j]@ == recipe(
                    model[j],
                )->Some_0,
        decreases items.len() - i,
    {
        match recipe_of(&items[i]) {
            Some(found) => {
                out.push(found);
            },
            None => {
                assert(!(recipe(model[i as int]) is Some));
                return None;
            },
        }
        i = i + 1;
    }
    assert(out.deep_view() =~= Seq::new(model.len(), |i: int| recipe(model[i])->Some_0));
    Some(out)
}

/// Reads the recipes of a document in whichever envelope it uses.
pub fn accept(json: &Json) -> (out: Option<AcceptableResponses>)
    ensures
        match out {
            Some(envelope) => accepted(json@) == Some(envelope.listed().deep_view()) && (
            envelope is Array <==> json@ is Array),
            None => accepted(json@).is_none(),
        },
{
    match json {
        Json::Array(_) => match recipe_list_of(json) {
            Some(recipes) => Some(AcceptableResponses::Array(recipes)),
            None => None,
        },
        Json::Object(_) => match json.get("recipes") {
            Some(list) => match recipe_list_of(list) {
                Some(recipes) => Some(AcceptableResponses::Object { recipes }),
                None => None,
            },
            None => None,
        },
        _ => None,
    }
}

/// Normalizes a payload that has been parsed: `parsed` is the document that
/// the payload holds, or `None` where it is no JSON. Gives the recipes of the
/// document, or a shape error with the payload.
pub fn normalize_parsed(payload: String, parsed: Option<Json>) -> (out: Result<
    Vec<ExtractedRecipe>,
    PipelineError,
>)
    ensures
        normalized(
            payload@,
            match parsed {
                Some(json) => Some(json@),
                None => None,
            },
            out,
        ),
{
    let envelope = match parsed {
        Some(json) => accept(&json),
        None => None,
    };
    match envelope {
        Some(envelope) => Ok(envelope.retrieve()),
        None => Err(PipelineError::ResponseShapeError { detail: payload }),
    }
}

/// Normalizes the text of a completion: strips its code fence, parses what is
/// left and reads the recipes in either envelope. Text that is no JSON, or
/// JSON of another shape, is a shape error that carries the stripped text.
pub fn normalize_completion(content: &str) -> (out: Result<Vec<ExtractedRecipe>, PipelineError>)
    ensures
        normalized(payload_text(content@), parsed_json(payload_text(content@)), out),
        out is Ok <==> normalization(content@) is Some,
{
    let payload = strip_code_fence(content);
    let parsed = parse_json(payload.as_str());
    normalize_parsed(payload, parsed)
}

/// Both envelopes give the same recipes: an object whose member `recipes` is
/// an array is read as that array is.
pub proof fn law_envelopes_agree(object: JsonValue, list: JsonValue)
    requires
        object is Object,
        list is Array,
        object.member("recipes"@) == Some(list),
    ensures
        accepted(object) == accepted(list),
{
}

/// The recipes come out as the document lists them: as many as the array
/// holds, each read from the object at its place, with the title, the
/// ingredients and the instructions that the object gives, in their order.
pub proof fn law_recipes_keep_their_order(items: Seq<JsonValue>, i: int)
    requires
        recipe_list(JsonValue::Array(items)) is Some,
        0 <= i < items.len(),
    ensures
        recipe_list(JsonValue::Array(items))->Some_0.len() == items.len(),
        recipe(items[i]) == Some(recipe_list(JsonValue::Array(items))->Some_0[i]),
        items[i].member("title"@) == Some(
            JsonValue::Str(recipe_list(JsonValue::Array(items))->Some_0[i].title),
        ),
        string_list(items[i].member("ingredients"@)->Some_0) == Some(
            recipe_list(JsonValue::Array(items))->Some_0[i].ingredients,
        ),
        string_list(items[i].member("instructions"@)->Some_0) == Some(
            recipe_list(JsonValue::Array(items))->Some_0[i].instructions,
        ),
{
    assert(recipe(items[i]) is Some);
}

/// The strings of a list come out as the document lists them: as many as
/// the array holds, each the string at its place.
pub proof fn law_strings_keep_their_order(items: Seq<JsonValue>, i: int)
    requires
        string_list(JsonValue::Array(items)) is Some,
        0 <= i < items.len(),
    ensures
        string_list(JsonValue::Array(items))->Some_0.len() == items.len(),
        items[i] == JsonValue::Str(string_list(JsonValue::Array(items))->Some_0[i]),
{
    assert(items[i] is Str);
}

/// Two completions give the same recipes where the payload of one is an
/// array and the payload of the other an object whose member `recipes` is
/// that array.
pub proof fn law_envelopes_agree_in_completions(bare: Seq<char>, wrapped: Seq<char>)
    requires
        parsed_json(payload_text(bare)) is Some,
        parsed_json(payload_text(bare))->Some_0 is Array,
        parsed_json(payload_text(wrapped)) is Some,
        parsed_json(payload_text(wrapped))->Some_0 is Object,
        parsed_json(payload_text(wrapped))->Some_0.member("recipes"@) == parsed_json(
            payload_text(bare),
        ),
    ensures
        normalization(wrapped) == normalization(bare),
{
}

/// A completion is read the same with and without a JSON code fence around
/// its payload, whatever white space stands between the fence and the
/// payload, for every payload that does not itself begin with a fence once
/// it is trimmed.
pub proof fn law_fenced_completion(payload: Seq<char>, before: Seq<char>, after: Seq<char>)
    requires
        all_space(before),
        all_space(after),
        !fence().is_prefix_of(trim(payload)),
    ensures
        normalization(fence_tag() + before + payload + after + fence()) == normalization(payload),
        normalization(fence_open() + payload + fence_close()) == normalization(payload),
{
    law_fence_is_stripped(payload, before, after);
    law_fenced_lines_are_stripped(payload);
}

/// A completion that is not wrapped in a fence is read as it stands:
/// nothing but the white space around it is taken away before it is parsed,
/// so that backticks in a title, an ingredient or an instruction stay.
pub proof fn law_unfenced_completion_is_kept(content: Seq<char>)
    requires
        !fence().is_prefix_of(trim(content)),
    ensures
        normalization(content) == match parsed_json(trim(content)) {
            Some(v) => accepted(v),
            None => None,
        },
{
    law_unfenced_text_is_kept(content);
}

} // verus!
