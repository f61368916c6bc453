//! The polymorphic field decoders: each tries its candidate shapes in a fixed
//! order and commits to the first that matches.
use vstd::prelude::*;
use crate::json::{JsonTree, json_tree, field_of, number_text, as_text, as_items, member, as_number, show_number};

verus! {

#[verifier::external_type_specification]
#[verifier::external_body]
pub struct ExDuration(iso8601_duration::Duration);

/// The duration that `iso8601_duration::Duration::parse` reads from a text, if
/// the text is a valid ISO-8601 duration.
pub uninterp spec fn parsed_duration(s: Seq<char>) -> Option<iso8601_duration::Duration>;

/// Relies on `iso8601_duration::Duration::parse`; a parse failure becomes `None`.
#[verifier::external_body]
pub(crate) fn parse_duration(s: &str) -> (r: Option<iso8601_duration::Duration>)
    ensures
        r == parsed_duration(s@),
{
    iso8601_duration::Duration::parse(s).ok()
}

/// The trees of a sequence of values.
pub open spec fn trees(a: Seq<serde_json::Value>) -> Seq<JsonTree> {
    a.map_values(|x: serde_json::Value| json_tree(x))
}

/// The resolved duration of a value: the parse of a text, absence otherwise.
pub open spec fn duration_of(t: JsonTree) -> Option<iso8601_duration::Duration> {
    match t {
        JsonTree::Str(s) => parsed_duration(s),
        _ => None,
    }
}

/// An optional ISO-8601 duration; an invalid one is held as absence.
#[derive(Clone, Copy, Debug, PartialEq)]
pub struct MaybeDuration(pub Option<iso8601_duration::Duration>);

impl View for MaybeDuration {
    type V = Option<iso8601_duration::Duration>;

    open spec fn view(&self) -> Option<iso8601_duration::Duration> {
        self.0
    }
}

impl MaybeDuration {
    /// Decodes a duration field; never fails.
    pub fn from_json(v: &serde_json::Value) -> (r: MaybeDuration)
        ensures
            r@ == duration_of(json_tree(*v)),
    {
        match as_text(v) {
            Some(s) => MaybeDuration(parse_duration(s)),
            None => MaybeDuration(None),
        }
    }

    pub fn duration(&self) -> (r: Option<&iso8601_duration::Duration>)
        ensures
            match self@ {
                Some(d) => r matches Some(x) && *x == d,
                None => r is None,
            },
    {
        match &self.0 {
            Some(d) => Some(d),
            None => None,
        }
    }

    pub fn is_present(&self) -> (r: bool)
        ensures
            r == self@ is Some,
    {
        self.0.is_some()
    }
}

/// A single instruction, by the shape it was written in.
pub enum InstructionModel {
    Simple(Seq<char>),
    Structured(Seq<char>),
}

impl InstructionModel {
    pub open spec fn text(self) -> Seq<char> {
        match self {
            InstructionModel::Simple(s) => s,
            InstructionModel::Structured(s) => s,
        }
    }
}

/// Instruction: a bare string first, else an object with a string `text`.
pub open spec fn instruction_of(t: JsonTree) -> Option<InstructionModel> {
    match t {
        JsonTree::Str(s) => Some(InstructionModel::Simple(s)),
        _ => match field_of(t, "text"@) {
            Some(JsonTree::Str(x)) => Some(InstructionModel::Structured(x)),
            _ => None,
        },
    }
}

/// Every element is an instruction: their models in order.
pub open spec fn instructions_of(items: Seq<JsonTree>) -> Option<Seq<InstructionModel>> {
    if forall|i: int| 0 <= i < items.len() ==> (#[trigger] instruction_of(items[i])) is Some {
        Some(items.map_values(|t: JsonTree| instruction_of(t)->0))
    } else {
        None
    }
}

#[derive(Clone, Debug, PartialEq, Eq)]
pub enum Instruction {
    Simple(String),
    Structured { text: String },
}

impl View for Instruction {
    type V = InstructionModel;

    open spec fn view(&self) -> InstructionModel {
        match self {
            Instruction::Simple(s) => InstructionModel::Simple(s@),
            Instruction::Structured { text } => InstructionModel::Structured(text@),
        }
    }
}

pub open spec fn instruction_views(v: Seq<Instruction>) -> Seq<InstructionModel> {
    v.map_values(|i: Instruction| i@)
}

impl Instruction {
    pub fn simple(instruction: &str) -> (r: Instruction)
        ensures
            r@ == InstructionModel::Simple(instruction@),
    {
        Instruction::Simple(instruction.to_owned())
    }

    pub fn structured(instruction: &str) -> (r: Instruction)
        ensures
            r@ == InstructionModel::Structured(instruction@),
    {
        let text = instruction.to_owned();
        Instruction::Structured { text }
    }

    /// The text shown for the instruction, whatever its shape.
    pub fn text(&self) -> (r: &String)
        ensures
            r@ == self@.text(),
    {
        match self {
            Instruction::Simple(s) => s,
            Instruction::Structured { text } => text,
        }
    }

    pub fn from_json(v: &serde_json::Value) -> (r: Option<Instruction>)
        ensures
            match instruction_of(json_tree(*v)) {
                Some(m) => r matches Some(i) && i@ == m,
                None => r is None,
            },
    {
        match as_text(v) {
            Some(s) => Some(Instruction::Simple(s.to_owned())),
            None => match member(v, "text") {
                Some(t) => match as_text(t) {
                    Some(x) => Some(Instruction::Structured { text: x.to_owned() }),
                    None => None,
                },
                None => None,
            },
        }
    }
}

/// Decodes every element as an instruction, failing if one does not match.
fn instructions_from(items: &Vec<serde_json::Value>) -> (r: Option<Vec<Instruction>>)
    ensures
        match instructions_of(trees(items@)) {
            Some(s) => r matches Some(v) && instruction_views(v@) == s,
            None => r is None,
        },
{
    let ghost ts = trees(items@);
    let mut out: Vec<Instruction> = Vec::new();
    let mut k: usize = 0;
    while k < items.len()
        invariant
            k <= items@.len(),
            ts == trees(items@),
            out@.len() == k,
            forall|j: int| 0 <= j < k ==> (#[trigger] instruction_of(ts[j])) is Some,
            forall|j: int| 0 <= j < k ==> out@[j]@ == instruction_of(ts[j])->0,
        decreases items@.len() - k,
    {
        match Instruction::from_json(&items[k]) {
            Some(i) => {
                out.push(i);
            },
            None => {
                assert(instruction_of(ts[k as int]) is None);
                return None;
            },
        }
        k = k + 1;
    }
    assert(instruction_views(out@) =~= ts.map_values(|t: JsonTree| instruction_of(t)->0));
    Some(out)
}

/// An ingredient list, by the shape it was written in.
pub enum IngredientsModel {
    Single(Seq<char>),
    Multi(Seq<Seq<char>>),
}

impl IngredientsModel {
    /// The ingredients in order; a single one is a list of one.
    pub open spec fn items(self) -> Seq<Seq<char>> {
        match self {
            IngredientsModel::Single(s) => seq![s],
            IngredientsModel::Multi(v) => v,
        }
    }
}

pub open spec fn text_of(t: JsonTree) -> Seq<char> {
    match t {
        JsonTree::Str(s) => s,
        _ => Seq::empty(),
    }
}

/// Ingredients: a single string first, else an array of strings.
pub open spec fn ingredients_of(t: JsonTree) -> Option<IngredientsModel> {
    match t {
        JsonTree::Str(s) => Some(IngredientsModel::Single(s)),
        JsonTree::Array(items) => if forall|i: int|
            0 <= i < items.len() ==> (#[trigger] items[i]) is Str {
            Some(IngredientsModel::Multi(items.map_values(|x: JsonTree| text_of(x))))
        } else {
            None
        },
        _ => None,
    }
}

pub open spec fn text_views(v: Seq<String>) -> Seq<Seq<char>> {
    v.map_values(|s: String| s@)
}

#[derive(Clone, Debug, PartialEq, Eq)]
pub enum IngredientList {
    Single(String),
    Multi(Vec<String>),
}

impl View for IngredientList {
    type V = IngredientsModel;

    open spec fn view(&self) -> IngredientsModel {
        match self {
            IngredientList::Single(s) => IngredientsModel::Single(s@),
            IngredientList::Multi(v) => IngredientsModel::Multi(text_views(v@)),
        }
    }
}

impl IngredientList {
    pub fn single(ingredient: &str) -> (r: IngredientList)
        ensures
            r@ == IngredientsModel::Single(ingredient@),
    {
        IngredientList::Single(ingredient.to_owned())
    }

    pub fn multi(ingredients: &[&str]) -> (r: IngredientList)
        ensures
            r@ matches IngredientsModel::Multi(v) && v.len() == ingredients@.len() && (forall|
                i: int,
            |
                0 <= i < v.len() ==> #[trigger] v[i] == ingredients@[i]@),
    {
        let mut out: Vec<String> = Vec::new();
        let mut k: usize = 0;
        while k < ingredients.len()
            invariant
                k <= ingredients@.len(),
                out@.len() == k,
                forall|j: int| 0 <= j < k ==> #[trigger] out@[j]@ == ingredients@[j]@,
            decreases ingredients@.len() - k,
        {
            out.push(ingredients[k].to_owned());
            k = k + 1;
        }
        IngredientList::Multi(out)
    }

    /// The ingredients in order, whichever shape was present.
    pub fn into_items(self) -> (r: Vec<String>)
        ensures
            text_views(r@) == self@.items(),
    {
        match self {
            IngredientList::Single(s) => {
                let r = vec![s];
                assert(text_views(r@) =~= seq![r@[0]@]);
                r
            },
            IngredientList::Multi(v) => v,
        }
    }

    pub fn from_json(v: &serde_json::Value) -> (r: Option<IngredientList>)
        ensures
            match ingredients_of(json_tree(*v)) {
                Some(m) => r matches Some(l) && l@ == m,
                None => r is None,
            },
    {
        if let Some(s) = as_text(v) {
            return Some(IngredientList::Single(s.to_owned()));
        }
        let items = match as_items(v) {
            Some(a) => a,
            None => {
                return None;
            },
        };
        let ghost ts = trees(items@);
        assert(json_tree(*v) == JsonTree::Array(ts)) by {
            assert(ts =~= json_tree(*v)->Array_0);
        }
        let mut out: Vec<String> = Vec::new();
        let mut k: usize = 0;
        while k < items.len()
            invariant
                k <= items@.len(),
                ts == trees(items@),
                json_tree(*v) == JsonTree::Array(ts),
                out@.len() == k,
                forall|j: int| 0 <= j < k ==> (#[trigger] ts[j]) is Str,
                forall|j: int| 0 <= j < k ==> out@[j]@ == text_of(ts[j]),
            decreases items@.len() - k,
        {
            match as_text(&items[k]) {
                Some(s) => {
                    out.push(s.to_owned());
                },
                None => {
                    assert(!(ts[k as int] is Str));
                    return None;
                },
            }
            k = k + 1;
        }
        assert(text_views(out@) =~= ts.map_values(|x: JsonTree| text_of(x)));
        Some(IngredientList::Multi(out))
    }
}

/// A named group of instructions.
pub struct SectionModel {
    pub name: Seq<char>,
    pub directions: Seq<InstructionModel>,
}

/// Section: an object with a string `name` and an array `itemListElement`
/// whose every element is an instruction.
pub open spec fn section_of(t: JsonTree) -> Option<SectionModel> {
    match (field_of(t, "name"@), field_of(t, "itemListElement"@)) {
        (Some(JsonTree::Str(n)), Some(JsonTree::Array(items))) => match instructions_of(items) {
            Some(d) => Some(SectionModel { name: n, directions: d }),
            None => None,
        },
        _ => None,
    }
}

/// Every element is a section: their models in order.
pub open spec fn sections_of(items: Seq<JsonTree>) -> Option<Seq<SectionModel>> {
    if forall|i: int| 0 <= i < items.len() ==> (#[trigger] section_of(items[i])) is Some {
        Some(items.map_values(|t: JsonTree| section_of(t)->0))
    } else {
        None
    }
}

#[derive(Clone, Debug, PartialEq, Eq)]
pub struct InstructionSection {
    name: String,
    directions: Vec<Instruction>,
}

impl View for InstructionSection {
    type V = SectionModel;

    closed spec fn view(&self) -> SectionModel {
        SectionModel { name: self.name@, directions: instruction_views(self.directions@) }
    }
}

pub open spec fn section_views(v: Seq<InstructionSection>) -> Seq<SectionModel> {
    v.map_values(|s: InstructionSection| s@)
}

impl InstructionSection {
    pub fn new(name: &str, directions: Vec<Instruction>) -> (r: InstructionSection)
        ensures
            r@ == (SectionModel { name: name@, directions: instruction_views(directions@) }),
    {
        InstructionSection { name: name.to_owned(), directions }
    }

    pub fn name(&self) -> (r: &String)
        ensures
            r@ == self@.name,
    {
        &self.name
    }

    /// The section's instructions in order; the name is dropped.
    pub fn into_instructions(self) -> (r: Vec<Instruction>)
        ensures
            instruction_views(r@) == self@.directions,
    {
        self.directions
    }

    pub fn from_json(v: &serde_json::Value) -> (r: Option<InstructionSection>)
        ensures
            match section_of(json_tree(*v)) {
                Some(m) => r matches Some(s) && s@ == m,
                None => r is None,
            },
    {
        let name = match member(v, "name") {
            Some(n) => match as_text(n) {
                Some(s) => s,
                None => {
                    return None;
                },
            },
            None => {
                return None;
            },
        };
        let items = match member(v, "itemListElement") {
            Some(l) => match as_items(l) {
                Some(a) => {
                    proof {
                        let t = field_of(json_tree(*v), "itemListElement"@)->0;
                        assert(trees(a@) =~= t->Array_0);
                    }
                    a
                },
                None => {
                    return None;
                },
            },
            None => {
                return None;
            },
        };
        match instructions_from(items) {
            Some(directions) => Some(InstructionSection { name: name.to_owned(), directions }),
            None => None,
        }
    }
}

/// Decodes every element as a section, failing if one does not match.
fn sections_from(items: &Vec<serde_json::Value>) -> (r: Option<Vec<InstructionSection>>)
    ensures
        match sections_of(trees(items@)) {
            Some(s) => r matches Some(v) && section_views(v@) == s,
            None => r is None,
        },
{
    let ghost ts = trees(items@);
    let mut out: Vec<InstructionSection> = Vec::new();
    let mut k: usize = 0;
    while k < items.len()
        invariant
            k <= items@.len(),
            ts == trees(items@),
            out@.len() == k,
            forall|j: int| 0 <= j < k ==> (#[trigger] section_of(ts[j])) is Some,
            forall|j: int| 0 <= j < k ==> out@[j]@ == section_of(ts[j])->0,
        decreases items@.len() - k,
    {
        match InstructionSection::from_json(&items[k]) {
            Some(s) => {
                out.push(s);
            },
            None => {
                assert(section_of(ts[k as int]) is None);
                return None;
            },
        }
        k = k + 1;
    }
    assert(section_views(out@) =~= ts.map_values(|t: JsonTree| section_of(t)->0));
    Some(out)
}

/// An instruction list, by the shape it was resolved to.
pub enum InstructionListModel {
    Single(InstructionModel),
    Multi(Seq<InstructionModel>),
    Sections(Seq<SectionModel>),
}

impl InstructionListModel {
    /// The flat directions: present for the single and sequence shapes.
    pub open spec fn flat(self) -> Option<Seq<InstructionModel>> {
        match self {
            InstructionListModel::Single(i) => Some(seq![i]),
            InstructionListModel::Multi(v) => Some(v),
            InstructionListModel::Sections(_) => None,
        }
    }

    /// The sections: present for the sectioned shape only.
    pub open spec fn sections(self) -> Option<Seq<SectionModel>> {
        match self {
            InstructionListModel::Sections(v) => Some(v),
            _ => None,
        }
    }
}

/// Instruction list: a single instruction first, else an array of
/// instructions, else an array of sections.
pub open spec fn instruction_list_of(t: JsonTree) -> Option<InstructionListModel> {
    match instruction_of(t) {
        Some(i) => Some(InstructionListModel::Single(i)),
        None => match t {
            JsonTree::Array(items) => match instructions_of(items) {
                Some(v) => Some(InstructionListModel::Multi(v)),
                None => match sections_of(items) {
                    Some(v) => Some(InstructionListModel::Sections(v)),
                    None => None,
                },
            },
            _ => None,
        },
    }
}

#[derive(Clone, Debug, PartialEq, Eq)]
pub enum InstructionList {
    Single(Instruction),
    Multi(Vec<Instruction>),
    Sections(Vec<InstructionSection>),
}

impl View for InstructionList {
    type V = InstructionListModel;

    open spec fn view(&self) -> InstructionListModel {
        match self {
            InstructionList::Single(i) => InstructionListModel::Single(i@),
            InstructionList::Multi(v) => InstructionListModel::Multi(instruction_views(v@)),
            InstructionList::Sections(v) => InstructionListModel::Sections(section_views(v@)),
        }
    }
}

impl InstructionList {
    /// The sections, for the sectioned shape; `None` otherwise.
    pub fn sections(&self) -> (r: Option<&Vec<InstructionSection>>)
        ensures
            match self@.sections() {
                Some(s) => r matches Some(v) && section_views(v@) == s,
                None => r is None,
            },
    {
        match self {
            InstructionList::Sections(v) => Some(v),
            _ => None,
        }
    }

    /// The flat directions, for the single and sequence shapes; `None` for
    /// sections.
    pub fn directions(&self) -> (r: Option<Vec<&Instruction>>)
        ensures
            match self@.flat() {
                Some(s) => r matches Some(v) && v@.len() == s.len() && (forall|i: int|
                    0 <= i < s.len() ==> #[trigger] v@[i]@ == s[i]),
                None => r is None,
            },
    {
        match self {
            InstructionList::Single(i) => Some(vec![i]),
            InstructionList::Multi(v) => {
                let mut out: Vec<&Instruction> = Vec::new();
                let mut k: usize = 0;
                while k < v.len()
                    invariant
                        k <= v@.len(),
                        out@.len() == k,
                        forall|j: int| 0 <= j < k ==> #[trigger] out@[j]@ == v@[j]@,
                    decreases v@.len() - k,
                {
                    out.push(&v[k]);
                    k = k + 1;
                }
                Some(out)
            },
            InstructionList::Sections(_) => None,
        }
    }

    pub fn from_json(v: &serde_json::Value) -> (r: Option<InstructionList>)
        ensures
            match instruction_list_of(json_tree(*v)) {
                Some(m) => r matches Some(l) && l@ == m,
                None => r is None,
            },
    {
        if let Some(i) = Instruction::from_json(v) {
            return Some(InstructionList::Single(i));
        }
        let items = match as_items(v) {
            Some(a) => a,
            None => {
                return None;
            },
        };
        assert(trees(items@) =~= json_tree(*v)->Array_0);
        if let Some(d) = instructions_from(items) {
            return Some(InstructionList::Multi(d));
        }
        match sections_from(items) {
            Some(s) => Some(InstructionList::Sections(s)),
            None => None,
        }
    }
}

/// A quantity: a number or a free text.
pub enum QuantityModel {
    Number(serde_json::Number),
    Text(Seq<char>),
}

impl QuantityModel {
    /// The text a quantity is shown as.
    pub open spec fn text(self) -> Seq<char> {
        match self {
            QuantityModel::Number(n) => number_text(n),
            QuantityModel::Text(s) => s,
        }
    }
}

/// The quantity shown when none is given.
pub open spec fn default_quantity() -> QuantityModel {
    QuantityModel::Text("N/A"@)
}

/// Quantity: a number first, else a string.
pub open spec fn quantity_of(t: JsonTree) -> Option<QuantityModel> {
    match t {
        JsonTree::Number(n) => Some(QuantityModel::Number(n)),
        JsonTree::Str(s) => Some(QuantityModel::Text(s)),
        _ => None,
    }
}

#[derive(Clone, Debug, PartialEq)]
pub enum Quantity {
    Number(serde_json::Number),
    String(String),
}

impl View for Quantity {
    type V = QuantityModel;

    open spec fn view(&self) -> QuantityModel {
        match self {
            Quantity::Number(n) => QuantityModel::Number(*n),
            Quantity::String(s) => QuantityModel::Text(s@),
        }
    }
}

impl Default for Quantity {
    fn default() -> (r: Quantity)
        ensures
            r@ == default_quantity(),
    {
        Quantity::String("N/A".to_owned())
    }
}

impl Quantity {
    /// The quantity as text: a number in its decimal form, a text as it is.
    pub fn to_text(&self) -> (r: String)
        ensures
            r@ == self@.text(),
    {
        match self {
            Quantity::Number(n) => show_number(n),
            Quantity::String(s) => s.clone(),
        }
    }

    pub fn from_json(v: &serde_json::Value) -> (r: Option<Quantity>)
        ensures
            match quantity_of(json_tree(*v)) {
                Some(m) => r matches Some(q) && q@ == m,
                None => r is None,
            },
    {
        if let Some(n) = as_number(v) {
            return Some(Quantity::Number(n));
        }
        match as_text(v) {
            Some(s) => Some(Quantity::String(s.to_owned())),
            None => None,
        }
    }
}

/// A yield, by the shape it was written in.
pub enum YieldModel {
    Single(QuantityModel),
    Multi(Seq<QuantityModel>),
}

impl YieldModel {
    /// The quantity shown: the single one, the first of several, or the
    /// default for an empty sequence.
    pub open spec fn shown(self) -> QuantityModel {
        match self {
            YieldModel::Single(q) => q,
            YieldModel::Multi(v) => if v.len() > 0 {
                v[0]
            } else {
                default_quantity()
            },
        }
    }
}

/// Yield: a single quantity first, else an array of quantities.
pub open spec fn yield_of(t: JsonTree) -> Option<YieldModel> {
    match quantity_of(t) {
        Some(q) => Some(YieldModel::Single(q)),
        None => match t {
            JsonTree::Array(items) => if forall|i: int|
                0 <= i < items.len() ==> (#[trigger] quantity_of(items[i])) is Some {
                Some(YieldModel::Multi(items.map_values(|x: JsonTree| quantity_of(x)->0)))
            } else {
                None
            },
            _ => None,
        },
    }
}

pub open spec fn quantity_views(v: Seq<Quantity>) -> Seq<QuantityModel> {
    v.map_values(|q: Quantity| q@)
}

#[derive(Clone, Debug, PartialEq)]
pub enum Yield {
    Single(Quantity),
    Multi(Vec<Quantity>),
}

impl View for Yield {
    type V = YieldModel;

    open spec fn view(&self) -> YieldModel {
        match self {
            Yield::Single(q) => YieldModel::Single(q@),
            Yield::Multi(v) => YieldModel::Multi(quantity_views(v@)),
        }
    }
}

impl Yield {
    /// The yield as text: its shown quantity's text.
    pub fn to_text(&self) -> (r: String)
        ensures
            r@ == self@.shown().text(),
    {
        match self {
            Yield::Single(q) => q.to_text(),
            Yield::Multi(v) => if v.len() > 0 {
                v[0].to_text()
            } else {
                Quantity::default().to_text()
            },
        }
    }

    pub fn from_json(v: &serde_json::Value) -> (r: Option<Yield>)
        ensures
            match yield_of(json_tree(*v)) {
                Some(m) => r matches Some(y) && y@ == m,
                None => r is None,
            },
    {
        if let Some(q) = Quantity::from_json(v) {
            return Some(Yield::Single(q));
        }
        let items = match as_items(v) {
            Some(a) => a,
            None => {
                return None;
            },
        };
        let ghost ts = trees(items@);
        assert(json_tree(*v) == JsonTree::Array(ts)) by {
            assert(ts =~= json_tree(*v)->Array_0);
        }
        let mut out: Vec<Quantity> = Vec::new();
        let mut k: usize = 0;
        while k < items.len()
            invariant
                k <= items@.len(),
                ts == trees(items@),
                json_tree(*v) == JsonTree::Array(ts),
                out@.len() == k,
                forall|j: int| 0 <= j < k ==> (#[trigger] quantity_of(ts[j])) is Some,
                forall|j: int| 0 <= j < k ==> out@[j]@ == quantity_of(ts[j])->0,
            decreases items@.len() - k,
        {
            match Quantity::from_json(&items[k]) {
                Some(q) => {
                    out.push(q);
                },
                None => {
                    assert(quantity_of(ts[k as int]) is None);
                    return None;
                },
            }
            k = k + 1;
        }
        assert(quantity_views(out@) =~= ts.map_values(|x: JsonTree| quantity_of(x)->0));
        Some(Yield::Multi(out))
    }
}

impl Instruction {
    /// A copy with the same model.
    pub(crate) fn duplicate(&self) -> (r: Instruction)
        ensures
            r@ == self@,
    {
        match self {
            Instruction::Simple(s) => Instruction::Simple(s.clone()),
            Instruction::Structured { text } => Instruction::Structured { text: text.clone() },
        }
    }
}

fn copy_instructions(v: &Vec<Instruction>) -> (r: Vec<Instruction>)
    ensures
        instruction_views(r@) == instruction_views(v@),
{
    let mut out: Vec<Instruction> = Vec::new();
    let mut k: usize = 0;
    while k < v.len()
        invariant
            k <= v@.len(),
            out@.len() == k,
            forall|j: int| 0 <= j < k ==> #[trigger] out@[j]@ == v@[j]@,
        decreases v@.len() - k,
    {
        out.push(v[k].duplicate());
        k = k + 1;
    }
    assert(instruction_views(out@) =~= instruction_views(v@));
    out
}

impl InstructionSection {
    pub(crate) fn duplicate(&self) -> (r: InstructionSection)
        ensures
            r@ == self@,
    {
        InstructionSection { name: self.name.clone(), directions: copy_instructions(&self.directions) }
    }
}

impl InstructionList {
    pub(crate) fn duplicate(&self) -> (r: InstructionList)
        ensures
            r@ == self@,
    {
        match self {
            InstructionList::Single(i) => InstructionList::Single(i.duplicate()),
            InstructionList::Multi(v) => InstructionList::Multi(copy_instructions(v)),
            InstructionList::Sections(v) => {
                let mut out: Vec<InstructionSection> = Vec::new();
                let mut k: usize = 0;
                while k < v.len()
                    invariant
                        k <= v@.len(),
                        out@.len() == k,
                        forall|j: int| 0 <= j < k ==> #[trigger] out@[j]@ == v@[j]@,
                    decreases v@.len() - k,
                {
                    out.push(v[k].duplicate());
                    k = k + 1;
                }
                assert(section_views(out@) =~= section_views(v@));
                InstructionList::Sections(out)
            },
        }
    }
}

impl IngredientList {
    pub(crate) fn duplicate(&self) -> (r: IngredientList)
        ensures
            r@ == self@,
    {
        match self {
            IngredientList::Single(s) => IngredientList::Single(s.clone()),
            IngredientList::Multi(v) => {
                let mut out: Vec<String> = Vec::new();
                let mut k: usize = 0;
                while k < v.len()
                    invariant
                        k <= v@.len(),
                        out@.len() == k,
                        forall|j: int| 0 <= j < k ==> #[trigger] out@[j]@ == v@[j]@,
                    decreases v@.len() - k,
                {
                    out.push(v[k].clone());
                    k = k + 1;
                }
                assert(text_views(out@) =~= text_views(v@));
                IngredientList::Multi(out)
            },
        }
    }
}

impl Quantity {
    pub(crate) fn duplicate(&self) -> (r: Quantity)
        ensures
            r@ == self@,
    {
        match self {
            Quantity::Number(n) => Quantity::Number(n.clone()),
            Quantity::String(s) => Quantity::String(s.clone()),
        }
    }
}

impl Yield {
    pub(crate) fn duplicate(&self) -> (r: Yield)
        ensures
            r@ == self@,
    {
        match self {
            Yield::Single(q) => Yield::Single(q.duplicate()),
            Yield::Multi(v) => {
                let mut out: Vec<Quantity> = Vec::new();
                let mut k: usize = 0;
                while k < v.len()
                    invariant
                        k <= v@.len(),
                        out@.len() == k,
                        forall|j: int| 0 <= j < k ==> #[trigger] out@[j]@ == v@[j]@,
                    decreases v@.len() - k,
                {
                    out.push(v[k].duplicate());
                    k = k + 1;
                }
                assert(quantity_views(out@) =~= quantity_views(v@));
                Yield::Multi(out)
            },
        }
    }
}

/// A duration text decodes to exactly the grammar's parse of it: a present
/// duration when the text parses, absence (and no failure) when it does not.
pub proof fn lemma_duration_resolves(s: Seq<char>)
    ensures
        duration_of(JsonTree::Str(s)) == parsed_duration(s),
        parsed_duration(s) is None ==> duration_of(JsonTree::Str(s)) is None,
{
}

/// An ingredient list decoded from a string iterates to exactly that string;
/// one decoded from an array of strings iterates to the array's strings in
/// order.
pub proof fn lemma_ingredients_iterate(s: Seq<char>, a: Seq<Seq<char>>)
    ensures
        ingredients_of(JsonTree::Str(s)) matches Some(m) && m.items() == seq![s],
        ingredients_of(JsonTree::Array(a.map_values(|x: Seq<char>| JsonTree::Str(x)))) matches Some(
            m,
        ) && m.items() == a,
{
    let t = a.map_values(|x: Seq<char>| JsonTree::Str(x));
    assert(forall|i: int| 0 <= i < t.len() ==> (#[trigger] t[i]) is Str);
    assert(t.map_values(|x: JsonTree| text_of(x)) =~= a);
}

} // verus!
