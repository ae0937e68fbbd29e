//! How the numbers of an objective are displayed.
use crate::text::owned;
use text_components::format::Format;
use text_components::TextComponent;
use vstd::prelude::*;

verus! {

/// The namespace of vanilla identifiers.
pub open spec fn vanilla_namespace() -> Seq<char> {
    "minecraft"@
}

/// What an identifier names: a namespace and a path in it.
pub struct IdentifierView {
    pub namespace: Seq<char>,
    pub path: Seq<char>,
}

/// A namespaced identifier, such as `minecraft:blank`.
#[derive(Debug, Clone, PartialEq, Eq, Hash)]
pub struct Identifier {
    namespace: String,
    path: String,
}

impl View for Identifier {
    type V = IdentifierView;

    closed spec fn view(&self) -> IdentifierView {
        IdentifierView { namespace: self.namespace@, path: self.path@ }
    }
}

impl Identifier {
    /// An identifier in the vanilla namespace.
    pub fn vanilla(path: &str) -> (r: Self)
        ensures
            r@ == (IdentifierView { namespace: vanilla_namespace(), path: path@ }),
    {
        Identifier { namespace: owned("minecraft"), path: owned(path) }
    }

    /// The namespace.
    pub fn namespace(&self) -> (r: &str)
        ensures
            r@ == self@.namespace,
    {
        self.namespace.as_str()
    }

    /// The path.
    pub fn path(&self) -> (r: &str)
        ensures
            r@ == self@.path,
    {
        self.path.as_str()
    }
}

/// A kind of number format, identified by its key.
#[derive(Debug)]
pub struct NumberFormatType {
    pub key: Identifier,
}

impl NumberFormatType {
    /// Creates a new number format type.
    pub fn new(key: Identifier) -> (r: Self)
        ensures
            r.key == key,
    {
        NumberFormatType { key }
    }
}

/// The vanilla number format that displays nothing.
pub fn blank() -> (r: NumberFormatType)
    ensures
        r.key@ == (IdentifierView { namespace: vanilla_namespace(), path: "blank"@ }),
{
    NumberFormatType::new(Identifier::vanilla("blank"))
}

/// The vanilla number format that displays the number with a style.
pub fn styled() -> (r: NumberFormatType)
    ensures
        r.key@ == (IdentifierView { namespace: vanilla_namespace(), path: "styled"@ }),
{
    NumberFormatType::new(Identifier::vanilla("styled"))
}

/// The vanilla number format that displays a fixed text.
pub fn fixed() -> (r: NumberFormatType)
    ensures
        r.key@ == (IdentifierView { namespace: vanilla_namespace(), path: "fixed"@ }),
{
    NumberFormatType::new(Identifier::vanilla("fixed"))
}

/// A way of displaying the numbers of an objective.
pub trait NumberFormat {
    /// The key of the kind of this format.
    spec fn format_key(&self) -> IdentifierView;

    /// The kind of this format.
    fn format_type(&self) -> (r: NumberFormatType)
        ensures
            r.key@ == self.format_key(),
    ;
}

/// Does not display anything, leaving it as a blank.
pub struct BlankFormat;

/// The number is displayed with a given style.
pub struct StyledFormat(pub Format);

/// Always displays a fixed text component instead of the number provided.
pub struct FixedFormat(pub TextComponent);

impl NumberFormat for BlankFormat {
    open spec fn format_key(&self) -> IdentifierView {
        IdentifierView { namespace: vanilla_namespace(), path: "blank"@ }
    }

    fn format_type(&self) -> (r: NumberFormatType) {
        blank()
    }
}

impl NumberFormat for StyledFormat {
    open spec fn format_key(&self) -> IdentifierView {
        IdentifierView { namespace: vanilla_namespace(), path: "styled"@ }
    }

    fn format_type(&self) -> (r: NumberFormatType) {
        styled()
    }
}

impl NumberFormat for FixedFormat {
    open spec fn format_key(&self) -> IdentifierView {
        IdentifierView { namespace: vanilla_namespace(), path: "fixed"@ }
    }

    fn format_type(&self) -> (r: NumberFormatType) {
        fixed()
    }
}

} // verus!
