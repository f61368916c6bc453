use iso8601_duration::Duration;
use recipe_ld::envelope::{DecodeError, GraphEntry, SchemaEntry, SchemaItem};
use recipe_ld::fields::{IngredientList, Instruction, InstructionList, MaybeDuration, Quantity, Yield};
use recipe_ld::recipe::{Recipe, RecipeError, RecipeField};
use recipe_ld::{Extract, Scrape};
use serde_json::Value;

fn json(text: &str) -> Value {
    serde_json::from_str(text).unwrap()
}

const RECIPE_A: &str =
    r#"{"name": "A", "description": "first", "recipeIngredient": ["salt", "flour"]}"#;

#[test]
fn duration_valid_text_equals_direct_parse() {
    let d = MaybeDuration::from_json(&json(r#""P1DT2H30M""#));
    assert!(d.is_present());
    assert_eq!(d.duration(), Some(&Duration::parse("P1DT2H30M").unwrap()));
}

#[test]
fn duration_malformed_or_not_text_is_absent() {
    assert_eq!(MaybeDuration::from_json(&json(r#""soon""#)).duration(), None);
    assert_eq!(MaybeDuration::from_json(&json("15")).duration(), None);
}

#[test]
fn ingredients_iterate_in_order() {
    let single = IngredientList::from_json(&json(r#""one""#)).unwrap();
    assert_eq!(single.into_items(), vec![String::from("one")]);
    let multi = IngredientList::from_json(&json(r#"["a", "b", "c"]"#)).unwrap();
    assert_eq!(multi.into_items(), vec![String::from("a"), String::from("b"), String::from("c")]);
    assert_eq!(IngredientList::from_json(&json(r#"["a", 1]"#)), None);
    assert_eq!(IngredientList::from_json(&json("[]")).unwrap().into_items(), Vec::<String>::new());
}

#[test]
fn instruction_list_mixed_array_is_flat_sequence() {
    let list = InstructionList::from_json(&json(r#"["a", {"name": "b", "text": "c"}]"#)).unwrap();
    assert!(matches!(list, InstructionList::Multi(_)));
    assert!(list.sections().is_none());
    let texts: Vec<String> =
        list.directions().unwrap().iter().map(|i| i.text().clone()).collect();
    assert_eq!(texts, vec![String::from("a"), String::from("c")]);
}

#[test]
fn instruction_list_sections_shape() {
    let list = InstructionList::from_json(&json(
        r#"[{"name": "Prep", "itemListElement": [{"name": "x", "text": "x"}]}]"#,
    ))
    .unwrap();
    assert!(list.directions().is_none());
    let sections = list.sections().unwrap();
    assert_eq!(sections.len(), 1);
    assert_eq!(sections[0].name(), "Prep");
    assert_eq!(sections[0].clone().into_instructions(), vec![Instruction::structured("x")]);
}

#[test]
fn instruction_list_rejects_other_shapes() {
    assert_eq!(InstructionList::from_json(&json("3")), None);
    assert_eq!(InstructionList::from_json(&json(r#"[{"name": "no text"}]"#)), None);
    assert_eq!(Instruction::from_json(&json(r#"{"text": 4}"#)), None);
}

#[test]
fn empty_yield_displays_default() {
    let y = Yield::from_json(&json("[]")).unwrap();
    assert_eq!(y.to_text(), "N/A");
}

#[test]
fn yield_displays_first_quantity() {
    assert_eq!(Yield::from_json(&json(r#"["4 servings", "8"]"#)).unwrap().to_text(), "4 servings");
    assert_eq!(Yield::from_json(&json("12")).unwrap().to_text(), "12");
    assert_eq!(Quantity::default().to_text(), "N/A");
    assert_eq!(Yield::from_json(&json("{}")), None);
}

#[test]
fn scrape_skips_malformed_block() {
    let html = format!(
        "<html><head><script type=\"application/ld+json\">{}</script>\
         <script type=\"application/ld+json\">{{ not json</script>\
         <script>{}</script></head><body></body></html>",
        RECIPE_A, RECIPE_A
    );
    let entries = SchemaEntry::scrape_html(&html);
    assert_eq!(entries.len(), 1);
    assert_eq!(entries[0].extract_recipes()[0].name(), "A");
}

#[test]
fn graph_extraction_keeps_recipes_in_order() {
    let text = format!(
        r#"{{"@graph": [{}, {{"@id": "crumbs"}}, {{"name": "B", "description": "second", "recipeIngredient": "water"}}]}}"#,
        RECIPE_A
    );
    let entry = SchemaEntry::from_json_str(&text).unwrap();
    match &entry {
        SchemaEntry::Graph { graph } => {
            assert_eq!(graph.len(), 3);
            assert_eq!(graph[1], GraphEntry::Nonsense { id: String::from("crumbs") });
            assert!(graph[1].recipe().is_none());
        }
        _ => panic!("expected a graph"),
    }
    let recipes = entry.extract_recipes();
    assert_eq!(recipes.len(), 2);
    assert_eq!(recipes[0].name(), "A");
    assert_eq!(recipes[1].name(), "B");
}

#[test]
fn graph_with_one_recipe_and_one_id_gives_one_recipe() {
    let text = format!(r#"{{"@graph": [{}, {{"@id": "x"}}]}}"#, RECIPE_A);
    let recipes = SchemaEntry::from_json_str(&text).unwrap().extract_recipes();
    assert_eq!(recipes.len(), 1);
    assert_eq!(recipes[0].description(), "first");
}

#[test]
fn single_and_multi_items() {
    let single = SchemaEntry::from_json_str(RECIPE_A).unwrap();
    assert!(matches!(single, SchemaEntry::Single(SchemaItem::Recipe(_))));
    assert_eq!(single.extract_recipes().len(), 1);

    let text = format!(r#"[{{"@context": "https://schema.org"}}, {}]"#, RECIPE_A);
    let multi = SchemaEntry::from_json_bytes(text.as_bytes()).unwrap();
    match &multi {
        SchemaEntry::Multi(items) => {
            assert_eq!(
                items[0],
                SchemaItem::Nonsense { context: String::from("https://schema.org") }
            );
        }
        _ => panic!("expected a sequence of items"),
    }
    assert_eq!(multi.extract_recipes().len(), 1);
}

#[test]
fn envelope_errors() {
    assert!(matches!(SchemaEntry::from_json_str("{ nope"), Err(DecodeError::Syntax(_))));
    assert!(matches!(SchemaEntry::from_json_str("42"), Err(DecodeError::Shape)));
    assert!(matches!(SchemaEntry::from_json_str(r#"{"name": "x"}"#), Err(DecodeError::Shape)));
    assert!(matches!(
        SchemaEntry::from_json_value(&json(r#"{"@graph": [{"name": "x"}]}"#)),
        Err(DecodeError::Shape)
    ));
}

#[test]
fn recipe_errors_name_the_field() {
    assert_eq!(
        Recipe::from_json(&json(r#"{"description": "d", "recipeIngredient": "i"}"#)),
        Err(RecipeError::Missing(RecipeField::Name))
    );
    assert_eq!(
        Recipe::from_json(&json(r#"{"name": "n", "description": 3, "recipeIngredient": "i"}"#)),
        Err(RecipeError::Invalid(RecipeField::Description))
    );
    assert_eq!(
        Recipe::from_json(&json(r#"{"name": "n", "description": "d"}"#)),
        Err(RecipeError::Missing(RecipeField::Ingredients))
    );
    assert_eq!(
        Recipe::from_json(&json(r#"{"name": "n", "description": "d", "recipeIngredient": {}}"#)),
        Err(RecipeError::Invalid(RecipeField::Ingredients))
    );
}

#[test]
fn optional_fields_degrade_to_absence() {
    let r = Recipe::from_json(&json(
        r#"{"name": "n", "description": "d", "recipeIngredient": "i",
            "cookTime": "PT10M", "prepTime": "later", "totalTime": null,
            "recipeYield": {"value": 2}, "recipeInstructions": 7}"#,
    ))
    .unwrap();
    assert_eq!(
        r.cook_time().unwrap().duration(),
        Some(&Duration::new(0., 0., 0., 0., 10., 0.))
    );
    assert_eq!(r.prep_time(), Some(MaybeDuration(None)));
    assert_eq!(r.total_time(), None);
    assert!(r.yields().is_none());
    assert!(r.directions().is_none());
    assert_eq!(r.ingredients(), &IngredientList::single("i"));
}
