//! The document-level envelope: a `@graph` container, a single item or a
//! sequence of items, each a recipe or a placeholder for another kind of object.
use vstd::prelude::*;
use crate::json::{JsonTree, json_tree, json_text, json_bytes, field_of, as_text, as_items, member, parse_text, parse_bytes};
use crate::fields::trees;
use crate::recipe::{Recipe, RecipeModel, recipe_of};

verus! {

/// One entry of an envelope.
pub enum EntryModel {
    Recipe(RecipeModel),
    /// An object that is no recipe, kept by its identifying key's value.
    Placeholder(Seq<char>),
}

/// Entry: a recipe first, else an object whose `key` member is a string.
pub open spec fn entry_of(t: JsonTree, key: Seq<char>) -> Option<EntryModel> {
    match recipe_of(t) {
        Ok(r) => Some(EntryModel::Recipe(r)),
        Err(_) => match field_of(t, key) {
            Some(JsonTree::Str(s)) => Some(EntryModel::Placeholder(s)),
            _ => None,
        },
    }
}

/// Every element is an entry: their models in order.
pub open spec fn entries_of(items: Seq<JsonTree>, key: Seq<char>) -> Option<Seq<EntryModel>> {
    if forall|i: int| 0 <= i < items.len() ==> (#[trigger] entry_of(items[i], key)) is Some {
        Some(items.map_values(|t: JsonTree| entry_of(t, key)->0))
    } else {
        None
    }
}

/// The resolved envelope.
pub enum SchemaModel {
    Graph(Seq<EntryModel>),
    Single(EntryModel),
    Multi(Seq<EntryModel>),
}

/// Envelope: a `@graph` array of entries keyed by `@id` first, else a single
/// item keyed by `@context`, else an array of such items.
pub open spec fn schema_entry_of(t: JsonTree) -> Option<SchemaModel> {
    let graph = match field_of(t, "@graph"@) {
        Some(JsonTree::Array(items)) => entries_of(items, "@id"@),
        _ => None,
    };
    match graph {
        Some(g) => Some(SchemaModel::Graph(g)),
        None => match entry_of(t, "@context"@) {
            Some(i) => Some(SchemaModel::Single(i)),
            None => match t {
                JsonTree::Array(items) => match entries_of(items, "@context"@) {
                    Some(s) => Some(SchemaModel::Multi(s)),
                    None => None,
                },
                _ => None,
            },
        },
    }
}

/// The recipes among entries, in order.
pub open spec fn recipes_in(s: Seq<EntryModel>) -> Seq<RecipeModel>
    decreases s.len(),
{
    if s.len() == 0 {
        Seq::empty()
    } else {
        let rest = recipes_in(s.drop_last());
        match s.last() {
            EntryModel::Recipe(r) => rest.push(r),
            EntryModel::Placeholder(_) => rest,
        }
    }
}

impl SchemaModel {
    pub open spec fn entries(self) -> Seq<EntryModel> {
        match self {
            SchemaModel::Graph(g) => g,
            SchemaModel::Single(e) => seq![e],
            SchemaModel::Multi(s) => s,
        }
    }

    /// The recipes of the envelope, in source order.
    pub open spec fn recipes(self) -> Seq<RecipeModel> {
        recipes_in(self.entries())
    }
}

#[derive(Clone, Debug, PartialEq)]
pub enum GraphEntry {
    Recipe(Box<Recipe>),
    Nonsense { id: String },
}

#[derive(Clone, Debug, PartialEq)]
pub enum SchemaItem {
    Recipe(Box<Recipe>),
    Nonsense { context: String },
}

impl View for GraphEntry {
    type V = EntryModel;

    open spec fn view(&self) -> EntryModel {
        match self {
            GraphEntry::Recipe(r) => EntryModel::Recipe((**r)@),
            GraphEntry::Nonsense { id } => EntryModel::Placeholder(id@),
        }
    }
}

impl View for SchemaItem {
    type V = EntryModel;

    open spec fn view(&self) -> EntryModel {
        match self {
            SchemaItem::Recipe(r) => EntryModel::Recipe((**r)@),
            SchemaItem::Nonsense { context } => EntryModel::Placeholder(context@),
        }
    }
}

pub open spec fn graph_views(v: Seq<GraphEntry>) -> Seq<EntryModel> {
    v.map_values(|e: GraphEntry| e@)
}

pub open spec fn item_views(v: Seq<SchemaItem>) -> Seq<EntryModel> {
    v.map_values(|e: SchemaItem| e@)
}

/// A decoded recipe or the placeholder key's text.
fn entry_from(v: &serde_json::Value, key: &str) -> (r: Option<Result<Box<Recipe>, String>>)
    ensures
        match entry_of(json_tree(*v), key@) {
            Some(EntryModel::Recipe(m)) => r matches Some(Ok(x)) && (*x)@ == m,
            Some(EntryModel::Placeholder(s)) => r matches Some(Err(x)) && x@ == s,
            None => r is None,
        },
{
    match Recipe::from_json(v) {
        Ok(r) => Some(Ok(Box::new(r))),
        Err(_) => match member(v, key) {
            Some(x) => match as_text(x) {
                Some(s) => Some(Err(s.to_owned())),
                None => None,
            },
            None => None,
        },
    }
}

impl GraphEntry {
    pub fn from_json(v: &serde_json::Value) -> (r: Option<GraphEntry>)
        ensures
            match entry_of(json_tree(*v), "@id"@) {
                Some(m) => r matches Some(e) && e@ == m,
                None => r is None,
            },
    {
        match entry_from(v, "@id") {
            Some(Ok(r)) => Some(GraphEntry::Recipe(r)),
            Some(Err(id)) => Some(GraphEntry::Nonsense { id }),
            None => None,
        }
    }

    /// The recipe, if the entry is one.
    pub fn recipe(&self) -> (r: Option<&Recipe>)
        ensures
            match self@ {
                EntryModel::Recipe(m) => r matches Some(x) && x@ == m,
                EntryModel::Placeholder(_) => r is None,
            },
    {
        match self {
            GraphEntry::Recipe(r) => Some(&**r),
            GraphEntry::Nonsense { .. } => None,
        }
    }
}

impl SchemaItem {
    pub fn from_json(v: &serde_json::Value) -> (r: Option<SchemaItem>)
        ensures
            match entry_of(json_tree(*v), "@context"@) {
                Some(m) => r matches Some(e) && e@ == m,
                None => r is None,
            },
    {
        match entry_from(v, "@context") {
            Some(Ok(r)) => Some(SchemaItem::Recipe(r)),
            Some(Err(context)) => Some(SchemaItem::Nonsense { context }),
            None => None,
        }
    }

    /// The recipe, if the item is one.
    pub fn recipe(&self) -> (r: Option<&Recipe>)
        ensures
            match self@ {
                EntryModel::Recipe(m) => r matches Some(x) && x@ == m,
                EntryModel::Placeholder(_) => r is None,
            },
    {
        match self {
            SchemaItem::Recipe(r) => Some(&**r),
            SchemaItem::Nonsense { .. } => None,
        }
    }
}

fn graph_from(items: &Vec<serde_json::Value>) -> (r: Option<Vec<GraphEntry>>)
    ensures
        match entries_of(trees(items@), "@id"@) {
            Some(s) => r matches Some(v) && graph_views(v@) == s,
            None => r is None,
        },
{
    let ghost ts = trees(items@);
    let mut out: Vec<GraphEntry> = Vec::new();
    let mut k: usize = 0;
    while k < items.len()
        invariant
            k <= items@.len(),
            ts == trees(items@),
            out@.len() == k,
            forall|j: int| 0 <= j < k ==> (#[trigger] entry_of(ts[j], "@id"@)) is Some,
            forall|j: int| 0 <= j < k ==> out@[j]@ == entry_of(ts[j], "@id"@)->0,
        decreases items@.len() - k,
    {
        match GraphEntry::from_json(&items[k]) {
            Some(e) => {
                out.push(e);
            },
            None => {
                assert(entry_of(ts[k as int], "@id"@) is None);
                return None;
            },
        }
        k = k + 1;
    }
    assert(graph_views(out@) =~= ts.map_values(|t: JsonTree| entry_of(t, "@id"@)->0));
    Some(out)
}

fn items_from(items: &Vec<serde_json::Value>) -> (r: Option<Vec<SchemaItem>>)
    ensures
        match entries_of(trees(items@), "@context"@) {
            Some(s) => r matches Some(v) && item_views(v@) == s,
            None => r is None,
        },
{
    let ghost ts = trees(items@);
    let mut out: Vec<SchemaItem> = Vec::new();
    let mut k: usize = 0;
    while k < items.len()
        invariant
            k <= items@.len(),
            ts == trees(items@),
            out@.len() == k,
            forall|j: int| 0 <= j < k ==> (#[trigger] entry_of(ts[j], "@context"@)) is Some,
            forall|j: int| 0 <= j < k ==> out@[j]@ == entry_of(ts[j], "@context"@)->0,
        decreases items@.len() - k,
    {
        match SchemaItem::from_json(&items[k]) {
            Some(e) => {
                out.push(e);
            },
            None => {
                assert(entry_of(ts[k as int], "@context"@) is None);
                return None;
            },
        }
        k = k + 1;
    }
    assert(item_views(out@) =~= ts.map_values(|t: JsonTree| entry_of(t, "@context"@)->0));
    Some(out)
}

/// Why a document is not an envelope.
#[derive(Debug)]
pub enum DecodeError {
    /// The input is not valid JSON.
    Syntax(serde_json::Error),
    /// The value matches none of the envelope's shapes.
    Shape,
}

#[derive(Clone, Debug, PartialEq)]
pub enum SchemaEntry {
    Graph { graph: Vec<GraphEntry> },
    Single(SchemaItem),
    Multi(Vec<SchemaItem>),
}

impl View for SchemaEntry {
    type V = SchemaModel;

    open spec fn view(&self) -> SchemaModel {
        match self {
            SchemaEntry::Graph { graph } => SchemaModel::Graph(graph_views(graph@)),
            SchemaEntry::Single(i) => SchemaModel::Single(i@),
            SchemaEntry::Multi(v) => SchemaModel::Multi(item_views(v@)),
        }
    }
}

pub open spec fn entry_views(v: Seq<SchemaEntry>) -> Seq<SchemaModel> {
    v.map_values(|e: SchemaEntry| e@)
}

pub open spec fn recipe_views(v: Seq<Recipe>) -> Seq<RecipeModel> {
    v.map_values(|r: Recipe| r@)
}

/// The envelope decoded from a text, if the text is JSON of an envelope's shape.
pub open spec fn decoded_text(s: Seq<char>) -> Option<SchemaModel> {
    match json_text(s) {
        Some(t) => schema_entry_of(t),
        None => None,
    }
}

/// The envelopes decoded from blocks, in order, skipping blocks that fail.
pub open spec fn decoded_blocks(blocks: Seq<Seq<char>>) -> Seq<SchemaModel>
    decreases blocks.len(),
{
    if blocks.len() == 0 {
        Seq::empty()
    } else {
        let rest = decoded_blocks(blocks.drop_last());
        match decoded_text(blocks.last()) {
            Some(e) => rest.push(e),
            None => rest,
        }
    }
}

/// The selector of embedded structured-data blocks.
pub const LD_JSON_SELECTOR: &'static str = "script[type=\"application/ld+json\"]";

/// The texts of the elements of an HTML document that a CSS selector matches,
/// in document order, each the concatenation of its text nodes; no element
/// for a selector that does not parse.
pub uninterp spec fn selected_texts(html: Seq<char>, selector: Seq<char>) -> Seq<Seq<char>>;

/// Relies on `scraper::Html::parse_document`, `scraper::Selector::parse`,
/// `scraper::Html::select` and `scraper::ElementRef::text`.
#[verifier::external_body]
fn select_texts(html: &str, selector: &str) -> (r: Vec<String>)
    ensures
        r@.map_values(|s: String| s@) == selected_texts(html@, selector@),
{
    let document = scraper::Html::parse_document(html);
    match scraper::Selector::parse(selector) {
        Ok(sel) => document.select(&sel).map(|el| el.text().collect::<String>()).collect(),
        Err(_) => Vec::new(),
    }
}

/// Extraction of normalized recipes from an envelope.
pub trait Extract {
    type Output;
    type Collection;

    fn extract_recipes(&self) -> Self::Collection;
}

/// Extraction of envelopes from an HTML document.
pub trait Scrape {
    type Output;
    type Collection;

    fn scrape_html(html: &str) -> Self::Collection;
}

impl SchemaEntry {
    /// Decodes an envelope from a parsed JSON value.
    pub fn from_json_value(v: &serde_json::Value) -> (r: Result<SchemaEntry, DecodeError>)
        ensures
            match schema_entry_of(json_tree(*v)) {
                Some(m) => r matches Ok(e) && e@ == m,
                None => r matches Err(DecodeError::Shape),
            },
    {
        let graph = match member(v, "@graph") {
            Some(g) => match as_items(g) {
                Some(items) => {
                    proof {
                        let t = field_of(json_tree(*v), "@graph"@)->0;
                        assert(trees(items@) =~= t->Array_0);
                    }
                    graph_from(items)
                },
                None => None,
            },
            None => None,
        };
        if let Some(graph) = graph {
            return Ok(SchemaEntry::Graph { graph });
        }
        if let Some(item) = SchemaItem::from_json(v) {
            return Ok(SchemaEntry::Single(item));
        }
        match as_items(v) {
            Some(items) => {
                assert(trees(items@) =~= json_tree(*v)->Array_0);
                match items_from(items) {
                    Some(s) => Ok(SchemaEntry::Multi(s)),
                    None => Err(DecodeError::Shape),
                }
            },
            None => Err(DecodeError::Shape),
        }
    }

    /// Decodes an envelope from JSON text.
    pub fn from_json_str(s: &str) -> (r: Result<SchemaEntry, DecodeError>)
        ensures
            match json_text(s@) {
                None => r matches Err(DecodeError::Syntax(_)),
                Some(t) => match schema_entry_of(t) {
                    Some(m) => r matches Ok(e) && e@ == m,
                    None => r matches Err(DecodeError::Shape),
                },
            },
    {
        match parse_text(s) {
            Ok(v) => SchemaEntry::from_json_value(&v),
            Err(e) => Err(DecodeError::Syntax(e)),
        }
    }

    /// Decodes an envelope from JSON bytes.
    pub fn from_json_bytes(b: &[u8]) -> (r: Result<SchemaEntry, DecodeError>)
        ensures
            match json_bytes(b@) {
                None => r matches Err(DecodeError::Syntax(_)),
                Some(t) => match schema_entry_of(t) {
                    Some(m) => r matches Ok(e) && e@ == m,
                    None => r matches Err(DecodeError::Shape),
                },
            },
    {
        match parse_bytes(b) {
            Ok(v) => SchemaEntry::from_json_value(&v),
            Err(e) => Err(DecodeError::Syntax(e)),
        }
    }
}

impl Extract for SchemaEntry {
    type Output = Recipe;
    type Collection = Vec<Recipe>;

    /// The recipes of the envelope in source order; placeholders are dropped.
    fn extract_recipes(&self) -> (r: Vec<Recipe>)
        ensures
            recipe_views(r@) == self@.recipes(),
    {
        let ghost entries = self@.entries();
        let mut out: Vec<Recipe> = Vec::new();
        match self {
            SchemaEntry::Graph { graph } => {
                let mut k: usize = 0;
                while k < graph.len()
                    invariant
                        k <= graph@.len(),
                        entries == graph_views(graph@),
                        recipe_views(out@) == recipes_in(entries.take(k as int)),
                    decreases graph@.len() - k,
                {
                    assert(entries.take(k + 1).drop_last() =~= entries.take(k as int));
                    if let Some(r) = graph[k].recipe() {
                        out.push(r.duplicate());
                        assert(recipe_views(out@) =~= recipe_views(out@.drop_last()).push(r@));
                    }
                    k = k + 1;
                }
                assert(entries.take(graph@.len() as int) =~= entries);
            },
            SchemaEntry::Single(item) => {
                assert(entries.drop_last() =~= Seq::<EntryModel>::empty());
                assert(recipes_in(entries.drop_last()) == Seq::<RecipeModel>::empty());
                if let Some(r) = item.recipe() {
                    out.push(r.duplicate());
                    assert(recipe_views(out@) =~= seq![r@]);
                } else {
                    assert(recipe_views(out@) =~= Seq::<RecipeModel>::empty());
                }
            },
            SchemaEntry::Multi(items) => {
                let mut k: usize = 0;
                while k < items.len()
                    invariant
                        k <= items@.len(),
                        entries == item_views(items@),
                        recipe_views(out@) == recipes_in(entries.take(k as int)),
                    decreases items@.len() - k,
                {
                    assert(entries.take(k + 1).drop_last() =~= entries.take(k as int));
                    if let Some(r) = items[k].recipe() {
                        out.push(r.duplicate());
                        assert(recipe_views(out@) =~= recipe_views(out@.drop_last()).push(r@));
                    }
                    k = k + 1;
                }
                assert(entries.take(items@.len() as int) =~= entries);
            },
        }
        out
    }
}

impl Scrape for SchemaEntry {
    type Output = SchemaEntry;
    type Collection = Vec<SchemaEntry>;

    /// The envelopes of the document's `application/ld+json` script blocks,
    /// in document order; a block that fails to decode is skipped.
    fn scrape_html(html: &str) -> (r: Vec<SchemaEntry>)
        ensures
            entry_views(r@) == decoded_blocks(selected_texts(html@, LD_JSON_SELECTOR@)),
    {
        let blocks = select_texts(html, LD_JSON_SELECTOR);
        let ghost texts = selected_texts(html@, LD_JSON_SELECTOR@);
        let mut out: Vec<SchemaEntry> = Vec::new();
        let mut k: usize = 0;
        while k < blocks.len()
            invariant
                k <= blocks@.len(),
                texts == blocks@.map_values(|s: String| s@),
                entry_views(out@) == decoded_blocks(texts.take(k as int)),
            decreases blocks@.len() - k,
        {
            assert(texts.take(k + 1).drop_last() =~= texts.take(k as int));
            assert(texts.take(k + 1).last() == blocks@[k as int]@);
            match SchemaEntry::from_json_str(blocks[k].as_str()) {
                Ok(e) => {
                    out.push(e);
                    assert(entry_views(out@) =~= entry_views(out@.drop_last()).push(e@));
                },
                Err(_) => {},
            }
            k = k + 1;
        }
        assert(texts.take(blocks@.len() as int) =~= texts);
        out
    }
}

/// Extraction keeps source order and drops only placeholders: a recipe entry
/// gives itself, a placeholder gives nothing, and the recipes of two
/// consecutive runs of entries are those of the first followed by those of
/// the second.
pub proof fn lemma_recipes_in_order(
    a: Seq<EntryModel>,
    b: Seq<EntryModel>,
    r: RecipeModel,
    key: Seq<char>,
)
    ensures
        recipes_in(seq![EntryModel::Recipe(r)]) == seq![r],
        recipes_in(seq![EntryModel::Placeholder(key)]) == Seq::<RecipeModel>::empty(),
        recipes_in(a + b) == recipes_in(a) + recipes_in(b),
    decreases b.len(),
{
    assert(seq![EntryModel::Recipe(r)].drop_last() =~= Seq::<EntryModel>::empty());
    assert(seq![EntryModel::Placeholder(key)].drop_last() =~= Seq::<EntryModel>::empty());
    assert(recipes_in(Seq::<EntryModel>::empty()) == Seq::<RecipeModel>::empty());
    assert(seq![EntryModel::Recipe(r)].last() == EntryModel::Recipe(r));
    assert(seq![EntryModel::Placeholder(key)].last() == EntryModel::Placeholder(key));
    assert(seq![r] =~= Seq::<RecipeModel>::empty().push(r));
    if b.len() == 0 {
        assert(a + b =~= a);
        assert(recipes_in(a) + recipes_in(b) =~= recipes_in(a));
    } else {
        lemma_recipes_in_order(a, b.drop_last(), r, key);
        assert((a + b).drop_last() =~= a + b.drop_last());
        assert((a + b).last() == b.last());
        match b.last() {
            EntryModel::Recipe(x) => {
                assert(recipes_in(a) + recipes_in(b.drop_last()).push(x) =~= (recipes_in(a)
                    + recipes_in(b.drop_last())).push(x));
            },
            EntryModel::Placeholder(_) => {},
        }
    }
}

} // verus!
