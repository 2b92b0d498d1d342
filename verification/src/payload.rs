//! The display payload: what the renderer hands to the remote client.

use vstd::prelude::*;

verus! {

/// What stands beside the texts of a section.
#[derive(Debug)]
pub enum Accessory {
    Thumbnail { url: String },
    LinkButton { url: String, label: String },
}

/// One choice of a selection menu.
#[derive(Debug)]
pub struct Choice {
    pub label: String,
    pub value: String,
}

/// A button that opens an address.
#[derive(Debug)]
pub struct Link {
    pub url: String,
    pub label: String,
}

/// One block of a payload.
#[derive(Debug)]
pub enum Block {
    /// Lines of text with an accessory.
    Section { texts: Vec<String>, accessory: Accessory },
    /// A line of text.
    Text { content: String },
    /// A divider between blocks.
    Separator,
    /// A row of link buttons.
    Buttons { links: Vec<Link> },
    /// A menu from which between `min_values` and `max_values` choices are
    /// picked.
    SelectMenu { custom_id: String, choices: Vec<Choice>, placeholder: String, min_values: u8, max_values: u8 },
}

/// A rendered payload: blocks from top to bottom.
#[derive(Debug)]
pub struct Container {
    pub blocks: Vec<Block>,
}

/// An accessory, as the contracts see it.
pub enum AccessoryView {
    Thumbnail { url: Seq<char> },
    LinkButton { url: Seq<char>, label: Seq<char> },
}

/// A choice, as the contracts see it.
pub struct ChoiceView {
    pub label: Seq<char>,
    pub value: Seq<char>,
}

/// A link button, as the contracts see it.
pub struct LinkView {
    pub url: Seq<char>,
    pub label: Seq<char>,
}

/// A block, as the contracts see it.
pub enum BlockView {
    Section { texts: Seq<Seq<char>>, accessory: AccessoryView },
    Text { content: Seq<char> },
    Separator,
    Buttons { links: Seq<LinkView> },
    SelectMenu {
        custom_id: Seq<char>,
        choices: Seq<ChoiceView>,
        placeholder: Seq<char>,
        min_values: u8,
        max_values: u8,
    },
}

/// The texts of a list of strings.
pub open spec fn texts_of(texts: Seq<String>) -> Seq<Seq<char>> {
    Seq::new(texts.len(), |i: int| texts[i]@)
}

/// The views of a list of choices.
pub open spec fn choices_of(choices: Seq<Choice>) -> Seq<ChoiceView> {
    Seq::new(choices.len(), |i: int| choices[i]@)
}

/// The views of a list of link buttons.
pub open spec fn links_of(links: Seq<Link>) -> Seq<LinkView> {
    Seq::new(links.len(), |i: int| links[i]@)
}

/// The views of a list of blocks.
pub open spec fn blocks_of(blocks: Seq<Block>) -> Seq<BlockView> {
    Seq::new(blocks.len(), |i: int| blocks[i]@)
}

impl View for Accessory {
    type V = AccessoryView;

    open spec fn view(&self) -> AccessoryView {
        match self {
            Accessory::Thumbnail { url } => AccessoryView::Thumbnail { url: url@ },
            Accessory::LinkButton { url, label } => AccessoryView::LinkButton { url: url@, label: label@ },
        }
    }
}

impl View for Link {
    type V = LinkView;

    open spec fn view(&self) -> LinkView {
        LinkView { url: self.url@, label: self.label@ }
    }
}

impl View for Choice {
    type V = ChoiceView;

    open spec fn view(&self) -> ChoiceView {
        ChoiceView { label: self.label@, value: self.value@ }
    }
}

impl View for Block {
    type V = BlockView;

    open spec fn view(&self) -> BlockView {
        match self {
            Block::Section { texts, accessory } => BlockView::Section {
                texts: texts_of(texts@),
                accessory: accessory@,
            },
            Block::Text { content } => BlockView::Text { content: content@ },
            Block::Separator => BlockView::Separator,
            Block::Buttons { links } => BlockView::Buttons { links: links_of(links@) },
            Block::SelectMenu { custom_id, choices, placeholder, min_values, max_values } => BlockView::SelectMenu {
                custom_id: custom_id@,
                choices: choices_of(choices@),
                placeholder: placeholder@,
                min_values: *min_values,
                max_values: *max_values,
            },
        }
    }
}

impl View for Container {
    type V = Seq<BlockView>;

    open spec fn view(&self) -> Seq<BlockView> {
        blocks_of(self.blocks@)
    }
}

/// A section of two lines beside a thumbnail.
pub fn section2(first: String, second: String, thumbnail: String) -> (b: Block)
    ensures
        b@ == (BlockView::Section {
            texts: seq![first@, second@],
            accessory: AccessoryView::Thumbnail { url: thumbnail@ },
        }),
{
    let mut texts: Vec<String> = Vec::new();
    texts.push(first);
    texts.push(second);
    assert(texts_of(texts@) =~= seq![first@, second@]);
    Block::Section { texts, accessory: Accessory::Thumbnail { url: thumbnail } }
}

/// A section of three lines beside a thumbnail.
pub fn section3(first: String, second: String, third: String, thumbnail: String) -> (b: Block)
    ensures
        b@ == (BlockView::Section {
            texts: seq![first@, second@, third@],
            accessory: AccessoryView::Thumbnail { url: thumbnail@ },
        }),
{
    let mut texts: Vec<String> = Vec::new();
    texts.push(first);
    texts.push(second);
    texts.push(third);
    assert(texts_of(texts@) =~= seq![first@, second@, third@]);
    Block::Section { texts, accessory: Accessory::Thumbnail { url: thumbnail } }
}

/// A section of two lines beside a link button.
pub fn section_with_link(first: String, second: String, url: String, label: String) -> (b: Block)
    ensures
        b@ == (BlockView::Section {
            texts: seq![first@, second@],
            accessory: AccessoryView::LinkButton { url: url@, label: label@ },
        }),
{
    let mut texts: Vec<String> = Vec::new();
    texts.push(first);
    texts.push(second);
    assert(texts_of(texts@) =~= seq![first@, second@]);
    Block::Section { texts, accessory: Accessory::LinkButton { url, label } }
}

impl Container {
    /// A payload without blocks.
    pub fn new() -> (c: Self)
        ensures
            c@ == Seq::<BlockView>::empty(),
    {
        let c = Container { blocks: Vec::new() };
        assert(c@ =~= Seq::<BlockView>::empty());
        c
    }

    /// Puts a block below the others.
    pub fn push(&mut self, block: Block)
        ensures
            final(self)@ == old(self)@.push(block@),
    {
        self.blocks.push(block);
        assert(self@ =~= old(self)@.push(block@));
    }

    /// The number of blocks.
    pub fn len(&self) -> (n: usize)
        ensures
            n == self@.len(),
    {
        self.blocks.len()
    }
}

} // verus!
