use vstd::prelude::*;

verus! {

/// The level of a heading, from the most to the least prominent.
#[derive(Clone, Copy, PartialEq, Eq, Debug, Structural)]
pub enum HeadingRank {
    H1,
    H2,
    H3,
    H4,
    H5,
    H6,
}

impl HeadingRank {
    /// The level as a number from 1 to 6.
    pub open spec fn number(self) -> int {
        match self {
            HeadingRank::H1 => 1,
            HeadingRank::H2 => 2,
            HeadingRank::H3 => 3,
            HeadingRank::H4 => 4,
            HeadingRank::H5 => 5,
            HeadingRank::H6 => 6,
        }
    }

    /// The level with the given number, if it is one of 1 to 6.
    pub fn from_number(n: u8) -> (r: Option<HeadingRank>)
        ensures
            r is Some <==> 1 <= n <= 6,
            r is Some ==> r->0.number() == n,
    {
        if n == 1 {
            Some(HeadingRank::H1)
        } else if n == 2 {
            Some(HeadingRank::H2)
        } else if n == 3 {
            Some(HeadingRank::H3)
        } else if n == 4 {
            Some(HeadingRank::H4)
        } else if n == 5 {
            Some(HeadingRank::H5)
        } else if n == 6 {
            Some(HeadingRank::H6)
        } else {
            None
        }
    }

    /// The level as a number from 1 to 6.
    pub fn to_number(self) -> (n: u8)
        ensures
            n == self.number(),
    {
        match self {
            HeadingRank::H1 => 1,
            HeadingRank::H2 => 2,
            HeadingRank::H3 => 3,
            HeadingRank::H4 => 4,
            HeadingRank::H5 => 5,
            HeadingRank::H6 => 6,
        }
    }
}

/// A structural element of a document, as it is opened and closed.
#[derive(Clone, Debug, PartialEq, Eq)]
pub enum TagKind {
    Paragraph,
    Heading(HeadingRank),
    BlockQuote,
    CodeBlock,
    /// A list; `true` where it is ordered.
    List(bool),
    ListItem,
    /// The definition of the footnote with the given label.
    FootnoteDefinition(String),
    Table,
    TableHead,
    TableRow,
    TableCell,
    Emphasis,
    Strong,
    Strikethrough,
    /// A link to the given address.
    Link(String),
    /// An image at the given address, with its alternative text.
    Image(String, String),
}

/// A construct with the texts that it carries as sequences of characters.
pub ghost enum TagShape {
    Paragraph,
    Heading(HeadingRank),
    BlockQuote,
    CodeBlock,
    List(bool),
    ListItem,
    FootnoteDefinition(Seq<char>),
    Table,
    TableHead,
    TableRow,
    TableCell,
    Emphasis,
    Strong,
    Strikethrough,
    Link(Seq<char>),
    Image(Seq<char>, Seq<char>),
}

impl View for TagKind {
    type V = TagShape;

    open spec fn view(&self) -> TagShape {
        match self {
            TagKind::Paragraph => TagShape::Paragraph,
            TagKind::Heading(rank) => TagShape::Heading(*rank),
            TagKind::BlockQuote => TagShape::BlockQuote,
            TagKind::CodeBlock => TagShape::CodeBlock,
            TagKind::List(ordered) => TagShape::List(*ordered),
            TagKind::ListItem => TagShape::ListItem,
            TagKind::FootnoteDefinition(label) => TagShape::FootnoteDefinition(label@),
            TagKind::Table => TagShape::Table,
            TagKind::TableHead => TagShape::TableHead,
            TagKind::TableRow => TagShape::TableRow,
            TagKind::TableCell => TagShape::TableCell,
            TagKind::Emphasis => TagShape::Emphasis,
            TagKind::Strong => TagShape::Strong,
            TagKind::Strikethrough => TagShape::Strikethrough,
            TagKind::Link(url) => TagShape::Link(url@),
            TagKind::Image(url, alt) => TagShape::Image(url@, alt@),
        }
    }
}

/// One unit of a document's structure.
#[derive(Clone, Debug, PartialEq, Eq)]
pub enum DocEvent {
    StartTag(TagKind),
    EndTag(TagKind),
    Text(String),
    InlineCode(String),
    /// Inline markup that the source carried verbatim.
    RawInline(String),
    /// A reference to the footnote with the given label.
    FootnoteReference(String),
    SoftBreak,
    HardBreak,
    ThematicBreak,
    /// The box of a task list item; `true` where it is checked.
    TaskListMarker(bool),
}

} // verus!
