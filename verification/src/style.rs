//! Styled text: spans, lines, and their mathematical models.

use vstd::prelude::*;
use vstd::string::StringExecFns;

verus! {

/// The closed set of terminal colors the panel's styling policy uses.
#[derive(Clone, Copy, Debug, PartialEq, Eq, Structural)]
pub enum Color {
    /// Accent color: the header label and the setting keys.
    Magenta,
    /// Contrast color: entry names, setting values, and the panel title.
    White,
    /// Warning color: the empty-selection placeholder.
    Yellow,
    /// The panel's border accent.
    LightMagenta,
}

/// A style descriptor for one span: a foreground color and an optional bold
/// emphasis.
#[derive(Clone, Copy, Debug, PartialEq, Eq, Structural)]
pub struct SpanStyle {
    pub fg: Color,
    pub bold: bool,
}

/// Mathematical model of a styled span: its characters together with its
/// style descriptor.
pub ghost struct SpanModel {
    pub text: Seq<char>,
    pub style: SpanStyle,
}

/// A text fragment annotated with a style.
#[derive(Clone, Debug, PartialEq, Eq)]
pub struct StyledSpan {
    pub text: String,
    pub style: SpanStyle,
}

impl View for StyledSpan {
    type V = SpanModel;

    open spec fn view(&self) -> SpanModel {
        SpanModel { text: self.text@, style: self.style }
    }
}

/// One output line: an ordered sequence of styled spans.
#[derive(Clone, Debug, PartialEq, Eq)]
pub struct StyledLine {
    pub spans: Vec<StyledSpan>,
}

impl View for StyledLine {
    type V = Seq<SpanModel>;

    open spec fn view(&self) -> Seq<SpanModel> {
        self.spans@.map_values(|s: StyledSpan| s@)
    }
}

/// The models of a sequence of styled lines, line by line.
pub open spec fn lines_view(lines: Seq<StyledLine>) -> Seq<Seq<SpanModel>> {
    lines.map_values(|l: StyledLine| l@)
}

/// The plain text a line shows: its span texts concatenated in order.
pub open spec fn line_text(line: Seq<SpanModel>) -> Seq<char> {
    line.map_values(|s: SpanModel| s.text).flatten()
}

/// The plain (style-free) text of a styled line.
pub fn styled_line_text(line: &StyledLine) -> (r: String)
    ensures
        r@ == line_text(line@),
{
    let mut r = String::new();
    let mut i: usize = 0;
    while i < line.spans.len()
        invariant
            i <= line.spans.len(),
            r@ == line_text(line@.take(i as int)),
        decreases line.spans.len() - i,
    {
        r.append(line.spans[i].text.as_str());
        proof {
            let prefix = line@.take(i as int);
            let next = line@.take(i as int + 1);
            assert(next =~= prefix.push(line@[i as int]));
            assert(next.map_values(|s: SpanModel| s.text) =~= prefix.map_values(
                |s: SpanModel| s.text,
            ).push(line@[i as int].text));
            prefix.map_values(|s: SpanModel| s.text).lemma_flatten_push(line@[i as int].text);
        }
        i += 1;
    }
    proof {
        assert(line@.take(line.spans@.len() as int) =~= line@);
    }
    r
}

} // verus!
