use iso8601_duration::Duration;
use recipe_ld::fields::{
    IngredientList, Instruction, InstructionList, InstructionSection, MaybeDuration, Quantity,
    Yield,
};
use recipe_ld::recipe::Recipe;
use serde_json::Value;

fn json(text: &str) -> Value {
    serde_json::from_str(text).unwrap()
}

#[test]
fn test_maybe_duration() {
    assert_eq!(
        MaybeDuration(Some(Duration::new(0., 0., 0., 0., 0., 2.))),
        MaybeDuration::from_json(&json(r#""PT2S""#))
    );

    assert_eq!(MaybeDuration(None), MaybeDuration::from_json(&json(r#""PTnullH""#)));
}

#[test]
fn test_ingredient_list_single() {
    let data = json(r#""The first ingredient.\nThe second one.""#);
    let result = IngredientList::from_json(&data);
    assert!(result.is_some());
    assert_eq!(
        IngredientList::single("The first ingredient.\nThe second one."),
        result.unwrap()
    )
}

#[test]
fn test_ingredient_list_multi() {
    let data = json(r#"["The first ingredient", "The second one"]"#);
    let result = IngredientList::from_json(&data);
    assert!(result.is_some());
    assert_eq!(
        IngredientList::multi(&["The first ingredient", "The second one"]),
        result.unwrap()
    );
}

#[test]
fn test_instruction_simple() {
    let data = json(r#""Do a thing""#);
    let result = Instruction::from_json(&data);
    assert!(result.is_some());
    assert_eq!(Instruction::simple("Do a thing"), result.unwrap());
}

#[test]
fn test_instruction_structured() {
    let data = json(r#"{"name": "Do a thing", "text": "Do a thing"}"#);
    let result = Instruction::from_json(&data);
    assert!(result.is_some());
    assert_eq!(Instruction::structured("Do a thing"), result.unwrap());
}

#[test]
fn test_instruction_section() {
    let data = json(
        r#"{"name": "Prep the thing", "itemListElement": [{"name": "Do a thing", "text": "Do a thing"}]}"#,
    );
    let result = InstructionSection::from_json(&data);
    assert!(result.is_some());
    assert_eq!(
        InstructionSection::new("Prep the thing", vec![Instruction::structured("Do a thing")]),
        result.unwrap()
    );
}

#[test]
fn test_instruction_list_single() {
    assert_eq!(
        InstructionList::Single(Instruction::simple("Do a thing")),
        InstructionList::from_json(&json(r#""Do a thing""#)).unwrap(),
    );

    assert_eq!(
        InstructionList::Single(Instruction::structured("Do a thing")),
        InstructionList::from_json(&json(r#"{"name": "Do a thing", "text": "Do a thing"}"#))
            .unwrap()
    );
}

#[test]
fn test_instruction_list_multi() {
    assert_eq!(
        InstructionList::Multi(vec![
            Instruction::simple("Do a thing"),
            Instruction::simple("Do another thing")
        ]),
        InstructionList::from_json(&json(r#"["Do a thing", "Do another thing"]"#)).unwrap(),
    );

    assert_eq!(
        InstructionList::Multi(vec![
            Instruction::structured("Do a thing"),
            Instruction::structured("Do another thing"),
        ]),
        InstructionList::from_json(&json(
            r#"[
                {"name": "Do a thing", "text": "Do a thing"},
                {"name": "Do another thing", "text": "Do another thing"}
            ]"#
        ))
        .unwrap()
    );

    assert_eq!(
        InstructionList::Multi(vec![
            Instruction::simple("Do a thing"),
            Instruction::structured("Do another thing")
        ]),
        InstructionList::from_json(&json(
            r#"[
                "Do a thing",
                {"name": "Do another thing", "text": "Do another thing"}
            ]"#
        ))
        .unwrap()
    );
}

#[test]
fn test_instruction_list_sections() {
    assert_eq!(
        InstructionList::Sections(vec![
            InstructionSection::new(
                "Prep the thing",
                vec![Instruction::structured("Do the thing")]
            ),
            InstructionSection::new(
                "Cook the thing",
                vec![Instruction::structured("Do the other thing")]
            )
        ]),
        InstructionList::from_json(&json(
            r#"[
                {"name": "Prep the thing", "itemListElement": [{"name": "Do the thing", "text": "Do the thing"}]},
                {"name": "Cook the thing", "itemListElement": [{"name": "Do the other thing", "text": "Do the other thing"}]}
            ]"#
        ))
        .unwrap(),
    );
}

#[test]
fn test_quantity() {
    assert_eq!(
        Quantity::Number(serde_json::Number::from(2)),
        Quantity::from_json(&json("2")).unwrap()
    );

    assert_eq!(
        Quantity::String(String::from("2 cups")),
        Quantity::from_json(&json(r#""2 cups""#)).unwrap()
    );
}

#[test]
fn test_yield() {
    assert_eq!(
        Yield::Single(Quantity::Number(serde_json::Number::from(2))),
        Yield::from_json(&json("2")).unwrap()
    );

    assert_eq!(
        Yield::Multi(vec![
            Quantity::String(String::from("2")),
            Quantity::String(String::from("2 cups")),
        ]),
        Yield::from_json(&json(r#"["2", "2 cups"]"#)).unwrap()
    );
}

#[test]
fn test_recipe() {
    assert_eq!(
        Recipe::new(
            "A recipe",
            "This is a recipe",
            IngredientList::single("An ingredient. Another one")
        ),
        Recipe::from_json(&json(
            r#"{"name": "A recipe", "description": "This is a recipe", "recipeIngredient": "An ingredient. Another one" }"#
        ))
        .unwrap()
    );

    assert_eq!(
        Recipe::new(
            "A recipe",
            "This is a recipe",
            IngredientList::single("An ingredient. Another one")
        )
        .with_directions(InstructionList::Single(Instruction::simple(
            "Do a thing. Do another thing"
        ))),
        Recipe::from_json(&json(
            r#"{
                "name": "A recipe",
                "description": "This is a recipe",
                "recipeIngredient": "An ingredient. Another one",
                "recipeInstructions": "Do a thing. Do another thing"
            }"#
        ))
        .unwrap()
    );
}
