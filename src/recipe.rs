//! The normalized recipe record and its decoder.
use vstd::prelude::*;
use crate::json::{JsonTree, json_tree, field_of, as_text, member, is_null};
use crate::fields::{
    MaybeDuration, duration_of, parsed_duration, IngredientList, IngredientsModel, ingredients_of, InstructionList,
    InstructionListModel, instruction_list_of, Yield, YieldModel, yield_of,
};

verus! {

/// A mandatory field of a recipe.
#[derive(Clone, Copy, Debug, PartialEq, Eq)]
pub enum RecipeField {
    Name,
    Description,
    Ingredients,
}

/// Why an object is not a recipe.
#[derive(Clone, Copy, Debug, PartialEq, Eq)]
pub enum RecipeError {
    /// The mandatory field is absent.
    Missing(RecipeField),
    /// The mandatory field is present in a shape that none of its candidates match.
    Invalid(RecipeField),
}

pub struct RecipeModel {
    pub name: Seq<char>,
    pub description: Seq<char>,
    pub cook_time: Option<Option<iso8601_duration::Duration>>,
    pub prep_time: Option<Option<iso8601_duration::Duration>>,
    pub total_time: Option<Option<iso8601_duration::Duration>>,
    pub yields: Option<YieldModel>,
    pub ingredients: IngredientsModel,
    pub directions: Option<InstructionListModel>,
}

/// A mandatory text field.
pub open spec fn text_field(t: JsonTree, key: Seq<char>, f: RecipeField) -> Result<
    Seq<char>,
    RecipeError,
> {
    match field_of(t, key) {
        None => Err(RecipeError::Missing(f)),
        Some(JsonTree::Str(s)) => Ok(s),
        Some(_) => Err(RecipeError::Invalid(f)),
    }
}

/// An optional duration field: absent or null gives `None`, any other value a
/// resolved duration.
pub open spec fn duration_field(t: JsonTree, key: Seq<char>) -> Option<
    Option<iso8601_duration::Duration>,
> {
    match field_of(t, key) {
        None => None,
        Some(JsonTree::Null) => None,
        Some(x) => Some(duration_of(x)),
    }
}

/// An optional yield field; a value that is no yield degrades to `None`.
pub open spec fn yield_field(t: JsonTree) -> Option<YieldModel> {
    match field_of(t, "recipeYield"@) {
        Some(x) => yield_of(x),
        None => None,
    }
}

/// An optional instructions field; a value that is no instruction list
/// degrades to `None`.
pub open spec fn directions_field(t: JsonTree) -> Option<InstructionListModel> {
    match field_of(t, "recipeInstructions"@) {
        Some(x) => instruction_list_of(x),
        None => None,
    }
}

/// Recipe: `name`, `description` and `recipeIngredient` are mandatory, tried
/// in that order; the other fields never fail the record.
pub open spec fn recipe_of(t: JsonTree) -> Result<RecipeModel, RecipeError> {
    match text_field(t, "name"@, RecipeField::Name) {
        Err(e) => Err(e),
        Ok(name) => match text_field(t, "description"@, RecipeField::Description) {
            Err(e) => Err(e),
            Ok(description) => match field_of(t, "recipeIngredient"@) {
                None => Err(RecipeError::Missing(RecipeField::Ingredients)),
                Some(x) => match ingredients_of(x) {
                    None => Err(RecipeError::Invalid(RecipeField::Ingredients)),
                    Some(ingredients) => Ok(
                        RecipeModel {
                            name,
                            description,
                            cook_time: duration_field(t, "cookTime"@),
                            prep_time: duration_field(t, "prepTime"@),
                            total_time: duration_field(t, "totalTime"@),
                            yields: yield_field(t),
                            ingredients,
                            directions: directions_field(t),
                        },
                    ),
                },
            },
        },
    }
}

#[derive(Clone, Debug, PartialEq)]
pub struct Recipe {
    name: String,
    description: String,
    cook_time: Option<MaybeDuration>,
    prep_time: Option<MaybeDuration>,
    total_time: Option<MaybeDuration>,
    yields: Option<Yield>,
    ingredients: IngredientList,
    directions: Option<InstructionList>,
}

pub open spec fn opt_duration_view(d: Option<MaybeDuration>) -> Option<
    Option<iso8601_duration::Duration>,
> {
    match d {
        Some(m) => Some(m@),
        None => None,
    }
}

impl View for Recipe {
    type V = RecipeModel;

    closed spec fn view(&self) -> RecipeModel {
        RecipeModel {
            name: self.name@,
            description: self.description@,
            cook_time: opt_duration_view(self.cook_time),
            prep_time: opt_duration_view(self.prep_time),
            total_time: opt_duration_view(self.total_time),
            yields: match self.yields {
                Some(y) => Some(y@),
                None => None,
            },
            ingredients: self.ingredients@,
            directions: match self.directions {
                Some(d) => Some(d@),
                None => None,
            },
        }
    }
}

fn text_member(v: &serde_json::Value, key: &str, f: RecipeField) -> (r: Result<String, RecipeError>)
    ensures
        match text_field(json_tree(*v), key@, f) {
            Ok(s) => r matches Ok(x) && x@ == s,
            Err(e) => r == Err::<String, RecipeError>(e),
        },
{
    match member(v, key) {
        None => Err(RecipeError::Missing(f)),
        Some(x) => match as_text(x) {
            Some(s) => Ok(s.to_owned()),
            None => Err(RecipeError::Invalid(f)),
        },
    }
}

fn duration_member(v: &serde_json::Value, key: &str) -> (r: Option<MaybeDuration>)
    ensures
        opt_duration_view(r) == duration_field(json_tree(*v), key@),
{
    match member(v, key) {
        None => None,
        Some(x) => if is_null(x) {
            None
        } else {
            Some(MaybeDuration::from_json(x))
        },
    }
}

impl Recipe {
    /// A recipe with the mandatory fields only.
    pub fn new(name: &str, description: &str, ingredients: IngredientList) -> (r: Recipe)
        ensures
            r@ == (RecipeModel {
                name: name@,
                description: description@,
                cook_time: None,
                prep_time: None,
                total_time: None,
                yields: None,
                ingredients: ingredients@,
                directions: None,
            }),
    {
        Recipe {
            name: name.to_owned(),
            description: description.to_owned(),
            cook_time: None,
            prep_time: None,
            total_time: None,
            yields: None,
            ingredients,
            directions: None,
        }
    }

    /// The same recipe with the given directions.
    pub fn with_directions(self, directions: InstructionList) -> (r: Recipe)
        ensures
            r@ == (RecipeModel { directions: Some(directions@), ..self@ }),
    {
        Recipe { directions: Some(directions), ..self }
    }

    /// Decodes a recipe object by field name.
    pub fn from_json(v: &serde_json::Value) -> (r: Result<Recipe, RecipeError>)
        ensures
            match recipe_of(json_tree(*v)) {
                Ok(m) => r matches Ok(x) && x@ == m,
                Err(e) => r == Err::<Recipe, RecipeError>(e),
            },
    {
        let name = match text_member(v, "name", RecipeField::Name) {
            Ok(s) => s,
            Err(e) => {
                return Err(e);
            },
        };
        let description = match text_member(v, "description", RecipeField::Description) {
            Ok(s) => s,
            Err(e) => {
                return Err(e);
            },
        };
        let ingredients = match member(v, "recipeIngredient") {
            None => {
                return Err(RecipeError::Missing(RecipeField::Ingredients));
            },
            Some(x) => match IngredientList::from_json(x) {
                Some(l) => l,
                None => {
                    return Err(RecipeError::Invalid(RecipeField::Ingredients));
                },
            },
        };
        let yields = match member(v, "recipeYield") {
            Some(x) => Yield::from_json(x),
            None => None,
        };
        let directions = match member(v, "recipeInstructions") {
            Some(x) => InstructionList::from_json(x),
            None => None,
        };
        Ok(
            Recipe {
                name,
                description,
                cook_time: duration_member(v, "cookTime"),
                prep_time: duration_member(v, "prepTime"),
                total_time: duration_member(v, "totalTime"),
                yields,
                ingredients,
                directions,
            },
        )
    }

    /// A copy with the same model.
    pub(crate) fn duplicate(&self) -> (r: Recipe)
        ensures
            r@ == self@,
    {
        Recipe {
            name: self.name.clone(),
            description: self.description.clone(),
            cook_time: self.cook_time,
            prep_time: self.prep_time,
            total_time: self.total_time,
            yields: match &self.yields {
                Some(y) => Some(y.duplicate()),
                None => None,
            },
            ingredients: self.ingredients.duplicate(),
            directions: match &self.directions {
                Some(d) => Some(d.duplicate()),
                None => None,
            },
        }
    }

    pub fn name(&self) -> (r: &String)
        ensures
            r@ == self@.name,
    {
        &self.name
    }

    pub fn description(&self) -> (r: &String)
        ensures
            r@ == self@.description,
    {
        &self.description
    }

    pub fn cook_time(&self) -> (r: Option<MaybeDuration>)
        ensures
            opt_duration_view(r) == self@.cook_time,
    {
        self.cook_time
    }

    pub fn prep_time(&self) -> (r: Option<MaybeDuration>)
        ensures
            opt_duration_view(r) == self@.prep_time,
    {
        self.prep_time
    }

    pub fn total_time(&self) -> (r: Option<MaybeDuration>)
        ensures
            opt_duration_view(r) == self@.total_time,
    {
        self.total_time
    }

    pub fn yields(&self) -> (r: Option<&Yield>)
        ensures
            match self@.yields {
                Some(m) => r matches Some(y) && y@ == m,
                None => r is None,
            },
    {
        match &self.yields {
            Some(y) => Some(y),
            None => None,
        }
    }

    pub fn ingredients(&self) -> (r: &IngredientList)
        ensures
            r@ == self@.ingredients,
    {
        &self.ingredients
    }

    pub fn directions(&self) -> (r: Option<&InstructionList>)
        ensures
            match self@.directions {
                Some(m) => r matches Some(d) && d@ == m,
                None => r is None,
            },
    {
        match &self.directions {
            Some(d) => Some(d),
            None => None,
        }
    }
}

/// A duration member that holds a text resolves to the grammar's parse of that
/// text, present or absent; whatever value stands there instead, whether the
/// record decodes stays the same.
pub proof fn lemma_duration_member_resolves(t: JsonTree, key: Seq<char>, s: Seq<char>, u: JsonTree)
    requires
        t is Object,
        field_of(t, key) == Some(JsonTree::Str(s)),
        key != "name"@,
        key != "description"@,
        key != "recipeIngredient"@,
    ensures
        duration_field(t, key) == Some(parsed_duration(s)),
        recipe_of(t) is Ok == recipe_of(JsonTree::Object(t->Object_0.insert(key, u))) is Ok,
{
    let t2 = JsonTree::Object(t->Object_0.insert(key, u));
    assert(field_of(t2, "name"@) == field_of(t, "name"@));
    assert(field_of(t2, "description"@) == field_of(t, "description"@));
    assert(field_of(t2, "recipeIngredient"@) == field_of(t, "recipeIngredient"@));
}

} // verus!
