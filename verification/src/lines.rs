//! The line builder: turns one configuration entry into its styled lines.

use vstd::prelude::*;
use vstd::string::StringExecFns;

use crate::model::{ConfigEntry, EntryModel};
use crate::style::{line_text, lines_view, Color, SpanModel, SpanStyle, StyledLine, StyledSpan};

verus! {

/// The style of the header label and of setting keys.
pub open spec fn accent_style() -> SpanStyle {
    SpanStyle { fg: Color::Magenta, bold: false }
}

/// The style of entry names and setting values.
pub open spec fn plain_style() -> SpanStyle {
    SpanStyle { fg: Color::White, bold: false }
}

/// The header line of an entry: the accent-colored label followed by the
/// entry's full name in the contrast color.
pub open spec fn header_line_model(name: Seq<char>) -> Seq<SpanModel> {
    seq![
        SpanModel { text: "Host "@, style: accent_style() },
        SpanModel { text: name, style: plain_style() },
    ]
}

/// One setting line: a two-space indent and the key in the accent color, a
/// separating space and the value in the contrast color.
pub open spec fn pair_line_model(key: Seq<char>, value: Seq<char>) -> Seq<SpanModel> {
    seq![
        SpanModel { text: "  "@, style: accent_style() },
        SpanModel { text: key, style: accent_style() },
        SpanModel { text: " "@, style: plain_style() },
        SpanModel { text: value, style: plain_style() },
    ]
}

/// The blank separator line appended after every entry.
pub open spec fn blank_line_model() -> Seq<SpanModel> {
    seq![SpanModel { text: Seq::<char>::empty(), style: plain_style() }]
}

/// The setting lines of an entry, one per key/value pair, in stored order.
pub open spec fn pairs_lines_model(pairs: Seq<(Seq<char>, Seq<char>)>) -> Seq<Seq<SpanModel>> {
    pairs.map_values(|p: (Seq<char>, Seq<char>)| pair_line_model(p.0, p.1))
}

/// Everything the line builder emits for one entry: the header line, one line
/// per key/value pair in stored order, and a trailing blank separator line.
pub open spec fn entry_lines_model(e: EntryModel) -> Seq<Seq<SpanModel>> {
    seq![header_line_model(e.name)] + pairs_lines_model(e.pairs) + seq![blank_line_model()]
}

fn header_line(name: &String) -> (r: StyledLine)
    ensures
        r@ == header_line_model(name@),
{
    let mut spans: Vec<StyledSpan> = Vec::new();
    spans.push(StyledSpan { text: String::from_str("Host "), style: SpanStyle { fg: Color::Magenta, bold: false } });
    spans.push(StyledSpan { text: name.clone(), style: SpanStyle { fg: Color::White, bold: false } });
    let r = StyledLine { spans };
    proof {
        assert(r@ =~= header_line_model(name@));
    }
    r
}

fn pair_line(key: &String, value: &String) -> (r: StyledLine)
    ensures
        r@ == pair_line_model(key@, value@),
{
    let mut spans: Vec<StyledSpan> = Vec::new();
    spans.push(StyledSpan { text: String::from_str("  "), style: SpanStyle { fg: Color::Magenta, bold: false } });
    spans.push(StyledSpan { text: key.clone(), style: SpanStyle { fg: Color::Magenta, bold: false } });
    spans.push(StyledSpan { text: String::from_str(" "), style: SpanStyle { fg: Color::White, bold: false } });
    spans.push(StyledSpan { text: value.clone(), style: SpanStyle { fg: Color::White, bold: false } });
    let r = StyledLine { spans };
    proof {
        assert(r@ =~= pair_line_model(key@, value@));
    }
    r
}

fn blank_line() -> (r: StyledLine)
    ensures
        r@ == blank_line_model(),
{
    let mut spans: Vec<StyledSpan> = Vec::new();
    spans.push(StyledSpan { text: String::new(), style: SpanStyle { fg: Color::White, bold: false } });
    let r = StyledLine { spans };
    proof {
        assert(r@ =~= blank_line_model());
    }
    r
}

/// The line builder: the styled lines of one entry — its header, one line per
/// key/value pair in stored order, and a trailing blank separator line. Total
/// over every well-formed entry, an empty name or an empty key list included.
pub fn entry_to_lines(entry: &ConfigEntry) -> (r: Vec<StyledLine>)
    ensures
        lines_view(r@) == entry_lines_model(entry@),
{
    let mut lines: Vec<StyledLine> = Vec::new();
    lines.push(header_line(&entry.full_name));
    proof {
        assert(lines_view(lines@) =~= seq![header_line_model(entry@.name)] + pairs_lines_model(
            entry@.pairs.take(0),
        ));
    }
    let mut i: usize = 0;
    while i < entry.host_config.len()
        invariant
            i <= entry.host_config.len(),
            entry@.pairs.len() == entry.host_config@.len(),
            lines_view(lines@) == seq![header_line_model(entry@.name)] + pairs_lines_model(
                entry@.pairs.take(i as int),
            ),
        decreases entry.host_config.len() - i,
    {
        let kv = &entry.host_config[i];
        let ghost pre = lines@;
        lines.push(pair_line(&kv.0, &kv.1));
        proof {
            let prev = entry@.pairs.take(i as int);
            let next = entry@.pairs.take(i as int + 1);
            assert(entry@.pairs[i as int] == (kv.0@, kv.1@));
            assert(next =~= prev.push(entry@.pairs[i as int]));
            assert(pairs_lines_model(next) =~= pairs_lines_model(prev).push(
                pair_line_model(kv.0@, kv.1@),
            ));
            assert(lines_view(lines@) =~= lines_view(pre).push(pair_line_model(kv.0@, kv.1@)));
            assert(lines_view(lines@) =~= seq![header_line_model(entry@.name)]
                + pairs_lines_model(next));
        }
        i += 1;
    }
    proof {
        assert(entry@.pairs.take(entry.host_config@.len() as int) =~= entry@.pairs);
    }
    lines.push(blank_line());
    proof {
        assert(lines_view(lines@) =~= entry_lines_model(entry@));
    }
    lines
}

/// Law: for an entry with `k` key/value pairs the line builder yields exactly
/// `k + 2` lines; the first line reads the header label followed by the
/// entry's full name, and the last line is empty.
pub proof fn lemma_entry_lines_shape(e: EntryModel)
    ensures
        entry_lines_model(e).len() == e.pairs.len() + 2,
        entry_lines_model(e).first() == header_line_model(e.name),
        line_text(entry_lines_model(e).first()) == "Host "@ + e.name,
        entry_lines_model(e).last() == blank_line_model(),
        line_text(entry_lines_model(e).last()) == Seq::<char>::empty(),
{
    let lines = entry_lines_model(e);
    assert(lines.first() == header_line_model(e.name));
    assert(lines.last() == blank_line_model());
    let header_texts = header_line_model(e.name).map_values(|s: SpanModel| s.text);
    assert(header_texts =~= seq!["Host "@].push(e.name));
    seq!["Host "@].lemma_flatten_push(e.name);
    seq![seq!["Host "@]].lemma_flatten_singleton();
    assert(seq!["Host "@].flatten() =~= "Host "@) by {
        seq!["Host "@].lemma_flatten_one_element();
    }
    assert(line_text(lines.first()) == "Host "@ + e.name);
    let blank_texts = blank_line_model().map_values(|s: SpanModel| s.text);
    assert(blank_texts =~= seq![Seq::<char>::empty()]);
    blank_texts.lemma_flatten_one_element();
    assert(line_text(lines.last()) =~= Seq::<char>::empty());
}

} // verus!
