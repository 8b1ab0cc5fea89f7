//! The stored recipe.

use crate::recipe::{ExtractedRecipe, RecipeView};
use vstd::prelude::*;

verus! {

/// A recipe as the extract stage writes it to the store. The store adds the
/// rest of the row.
#[derive(Clone, Debug, PartialEq, Eq)]
pub struct NewRecipe {
    pub title: Option<String>,
    pub ingredients: Option<Vec<String>>,
    pub instructions: Option<Vec<String>>,
    /// The video that the recipe was read from.
    pub instagram_video_id: Option<i32>,
    /// When the recipe was read, in seconds.
    pub generated_at: Option<i64>,
}

/// The mathematical model of a recipe to store.
pub struct NewRecipeView {
    pub title: Option<Seq<char>>,
    pub ingredients: Option<Seq<Seq<char>>>,
    pub instructions: Option<Seq<Seq<char>>>,
    pub instagram_video_id: Option<i32>,
    pub generated_at: Option<i64>,
}

impl View for NewRecipe {
    type V = NewRecipeView;

    open spec fn view(&self) -> NewRecipeView {
        NewRecipeView {
            title: match self.title {
                Some(title) => Some(title@),
                None => None,
            },
            ingredients: match self.ingredients {
                Some(list) => Some(list.deep_view()),
                None => None,
            },
            instructions: match self.instructions {
                Some(list) => Some(list.deep_view()),
                None => None,
            },
            instagram_video_id: self.instagram_video_id,
            generated_at: self.generated_at,
        }
    }
}

impl DeepView for NewRecipe {
    type V = NewRecipeView;

    open spec fn deep_view(&self) -> NewRecipeView {
        self@
    }
}

/// The row for a recipe that was read from the video `video_id` at the time
/// `generated_at`.
pub open spec fn recipe_row(recipe: RecipeView, video_id: i32, generated_at: i64) -> NewRecipeView {
    NewRecipeView {
        title: Some(recipe.title),
        ingredients: Some(recipe.ingredients),
        instructions: Some(recipe.instructions),
        instagram_video_id: Some(video_id),
        generated_at: Some(generated_at),
    }
}

/// The rows for the recipes that were read from the video `video_id` at the
/// time `generated_at`: one for each recipe, in order.
pub open spec fn recipe_rows(recipes: Seq<RecipeView>, video_id: i32, generated_at: i64) -> Seq<
    NewRecipeView,
> {
    Seq::new(recipes.len(), |i: int| recipe_row(recipes[i], video_id, generated_at))
}

/// A copy of a list of strings.
pub fn copy_strings(list: &Vec<String>) -> (copy: Vec<String>)
    ensures
        copy.deep_view() == list.deep_view(),
{
    let mut copy: Vec<String> = Vec::new();
    let mut i: usize = 0;
    while i < list.len()
        invariant
            i <= list.len(),
            copy@.len() == i,
            forall|j: int| 0 <= j < i ==> copy@[j]@ == list@[j]@,
        decreases list.len() - i,
    {
        copy.push(list[i].clone());
        i = i + 1;
    }
    assert(copy.deep_view() =~= list.deep_view());
    copy
}

/// Makes the rows for the recipes that were read from a video: each refers
/// to the video and carries the time at which it was read. Every call makes
/// new rows; none replaces an earlier one.
pub fn save_newly_recipes(recipes: &Vec<ExtractedRecipe>, video_id: i32, generated_at: i64) -> (rows:
    Vec<NewRecipe>)
    ensures
        rows.deep_view() == recipe_rows(recipes.deep_view(), video_id, generated_at),
{
    let mut rows: Vec<NewRecipe> = Vec::new();
    let mut i: usize = 0;
    while i < recipes.len()
        invariant
            i <= recipes.len(),
            rows@.len() == i,
            forall|j: int| 0 <= j < i ==> rows@[j]@ == recipe_row(recipes@[j]@, video_id, generated_at),
        decreases recipes.len() - i,
    {
        let recipe = &recipes[i];
        rows.push(
            NewRecipe {
                title: Some(recipe.title.clone()),
                ingredients: Some(copy_strings(&recipe.ingredients)),
                instructions: Some(copy_strings(&recipe.instructions)),
                instagram_video_id: Some(video_id),
                generated_at: Some(generated_at),
            },
        );
        i = i + 1;
    }
    assert(rows.deep_view() =~= recipe_rows(recipes.deep_view(), video_id, generated_at));
    rows
}

} // verus!
