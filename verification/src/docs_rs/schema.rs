//! Normalized crate-doc schema, decoupled from any specific
//! `rustdoc-types` version.
//!
//! Only the fields the doc searches read are modeled. Unknown item kinds
//! collapse to [`DocsRsItemKind::Other`] and are dropped by the search
//! walk.

use std::collections::HashMap;

use vstd::prelude::*;

verus! {

/// Subset of a rustdoc-JSON crate: items and their addressable paths,
/// keyed by numeric item id.
#[derive(Debug, Clone, Default)]
pub struct DocsRsCrate {
    /// All items keyed by their numeric id.
    pub index: HashMap<u32, DocsRsItem>,
    /// Per-id summaries that include the addressable path and kind.
    pub paths: HashMap<u32, DocsRsItemSummary>,
}

/// Subset of a rustdoc item — just the fields needed for doc-comment
/// search and result ranking.
#[derive(Debug, Clone)]
pub struct DocsRsItem {
    /// Item's short name (e.g. `"Deserialize"`). `None` for items
    /// without names (impls).
    pub name: Option<String>,
    /// Markdown doc body. `None` if undocumented, `Some("")` if doc
    /// is empty.
    pub docs: Option<String>,
}

/// Subset of a rustdoc item summary.
#[derive(Debug, Clone)]
pub struct DocsRsItemSummary {
    /// `0` for the local crate; non-zero for items pulled in from a
    /// foreign crate (re-exports, intra-doc references).
    pub crate_id: u32,
    /// Fully-qualified path components, e.g. `["serde", "de", "value",
    /// "U8Deserializer"]`. `path[0]` is the crate lib name.
    pub path: Vec<String>,
    /// Item kind, narrowed to the addressable variants.
    pub kind: DocsRsItemKind,
}

/// Addressable item kinds — anything rustdoc renders to its own
/// `{kind}.{name}.html` page. Everything else collapses to
/// [`Self::Other`] and is filtered out by the search walk.
#[derive(Debug, Clone, Copy, PartialEq, Eq, Structural)]
pub enum DocsRsItemKind {
    /// `mod foo`. Renders to `{path}/index.html`.
    Module,
    /// `struct Foo`.
    Struct,
    /// `union Foo`.
    Union,
    /// `enum Foo`.
    Enum,
    /// `fn foo()`. Top-level functions only; methods are not addressable.
    Function,
    /// `type Foo = ...`.
    TypeAlias,
    /// `const FOO: ...`.
    Constant,
    /// `trait Foo`.
    Trait,
    /// `trait Foo = ...`.
    TraitAlias,
    /// `static FOO: ...`.
    Static,
    /// `macro_rules!` and proc-macro function-style macros.
    Macro,
    /// `#[proc_macro_derive]` macros.
    ProcDerive,
    /// `#[proc_macro_attribute]` macros.
    ProcAttribute,
    /// Core's built-in attribute documentation.
    Attribute,
    /// Built-in primitive types (only from `core`/`std`).
    Primitive,
    /// `keyword.{name}.html` doc pages (only from `core`/`std`).
    Keyword,
    /// Anything we don't model.
    Other,
}

} // verus!
