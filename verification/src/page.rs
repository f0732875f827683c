//! Console output as data: a page is a run of styled pieces of text, printed
//! one after the other. A line ends where a piece holds a line feed.

use vstd::prelude::*;

verus! {

/// How a piece of text is styled on a console.
#[derive(Clone, Copy, Debug, PartialEq, Eq, Structural)]
pub enum Tone {
    Plain,
    Bold,
    Dimmed,
    Red,
    RedBold,
    Green,
    Yellow,
    YellowBold,
    Cyan,
    CyanBold,
    BrightBlue,
    BrightBlack,
}

/// A text in one style.
#[derive(Clone, Debug)]
pub struct Piece {
    pub tone: Tone,
    pub text: String,
}

/// What a piece shows.
#[verifier::ext_equal]
pub struct PieceView {
    pub tone: Tone,
    pub text: Seq<char>,
}

impl View for Piece {
    type V = PieceView;

    open spec fn view(&self) -> PieceView {
        PieceView { tone: self.tone, text: self.text@ }
    }
}

/// A piece in the given style.
pub open spec fn styled(tone: Tone, text: Seq<char>) -> PieceView {
    PieceView { tone, text }
}

/// A piece without a style.
pub open spec fn plain(text: Seq<char>) -> PieceView {
    styled(Tone::Plain, text)
}

/// A run of pieces to print.
#[derive(Clone, Debug)]
pub struct Page {
    pub pieces: Vec<Piece>,
}

impl View for Page {
    type V = Seq<PieceView>;

    open spec fn view(&self) -> Seq<PieceView> {
        self.pieces@.map_values(|p: Piece| p@)
    }
}

impl Page {
    /// A page with nothing on it.
    pub fn new() -> (r: Page)
        ensures
            r@ == Seq::<PieceView>::empty(),
    {
        let r = Page { pieces: Vec::new() };
        assert(r@ =~= Seq::<PieceView>::empty());
        r
    }

    /// Adds a piece in the given style.
    pub fn put(&mut self, tone: Tone, text: &str)
        ensures
            final(self)@ == old(self)@.push(styled(tone, text@)),
    {
        self.pieces.push(Piece { tone, text: text.to_owned() });
        assert(self@ =~= old(self)@.push(styled(tone, text@)));
    }

    /// Adds a piece without a style.
    pub fn write(&mut self, text: &str)
        ensures
            final(self)@ == old(self)@.push(plain(text@)),
    {
        self.put(Tone::Plain, text);
    }

    /// Adds the pieces of another page at the end.
    pub fn append(&mut self, other: Page)
        ensures
            final(self)@ == old(self)@ + other@,
    {
        let mut pieces = other.pieces;
        let ghost before = self.pieces@;
        let ghost added = pieces@;
        self.pieces.append(&mut pieces);
        assert(self.pieces@ =~= before + added);
        assert(self@ =~= old(self)@ + other@);
    }
}

/// A piece shows its own text in its own style, on a page as by itself.
pub proof fn pieces_show_what_they_hold(page: Page, i: int)
    requires
        0 <= i < page.pieces@.len(),
    ensures
        page@.len() == page.pieces@.len(),
        page@[i].tone == page.pieces@[i].tone,
        page@[i].text == page.pieces@[i].text@,
{
}

/// A styled piece has its style and its text, and a plain one no style.
pub proof fn pieces_have_their_style(tone: Tone, text: Seq<char>)
    ensures
        styled(tone, text).tone == tone,
        styled(tone, text).text == text,
        plain(text).tone == Tone::Plain,
        plain(text).text == text,
{
}

} // verus!
