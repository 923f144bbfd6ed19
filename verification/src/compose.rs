//! The view composer: mode selection, aggregation over the store, scroll
//! application, and the panel frame description.

use vstd::prelude::*;
use vstd::seq_lib::lemma_flatten_concat;
use vstd::string::StringExecFns;

use crate::lines::{entry_lines_model, entry_to_lines};
use crate::model::{ConfigEntry, ConfigStore, DisplayMode, EntryModel};
use crate::style::{lines_view, Color, SpanModel, SpanStyle, StyledLine, StyledSpan};

verus! {

/// The style of the empty-selection placeholder: the warning color, bold.
pub open spec fn placeholder_style() -> SpanStyle {
    SpanStyle { fg: Color::Yellow, bold: true }
}

/// The single line shown in selected-entry mode when nothing is selected.
pub open spec fn placeholder_line_model() -> Seq<SpanModel> {
    seq![SpanModel { text: "No item selected."@, style: placeholder_style() }]
}

/// The lines of a group: the line builder's output for each entry, in stored
/// order, concatenated.
pub open spec fn group_lines_model(entries: Seq<EntryModel>) -> Seq<Seq<SpanModel>> {
    entries.map_values(|e: EntryModel| entry_lines_model(e)).flatten()
}

/// The show-all lines: every group's lines in store order, concatenated.
pub open spec fn all_lines_model(groups: Seq<Seq<EntryModel>>) -> Seq<Seq<SpanModel>> {
    groups.map_values(|g: Seq<EntryModel>| group_lines_model(g)).flatten()
}

/// The model of an optional selected entry.
pub open spec fn selected_model(selected: Option<&ConfigEntry>) -> Option<EntryModel> {
    match selected {
        Option::Some(e) => Option::Some(e@),
        Option::None => Option::None,
    }
}

/// What one render pass composes, before scrolling: the show-all
/// concatenation, the selected entry's lines, or the placeholder line.
pub open spec fn composed_lines_model(
    mode: DisplayMode,
    groups: Seq<Seq<EntryModel>>,
    selected: Option<EntryModel>,
) -> Seq<Seq<SpanModel>> {
    match mode {
        DisplayMode::ShowAll => all_lines_model(groups),
        DisplayMode::ShowSelected => match selected {
            Option::Some(e) => entry_lines_model(e),
            Option::None => seq![placeholder_line_model()],
        },
    }
}

/// The lines left after advancing by the scroll offset: the composed lines
/// with the first `offset` lines skipped, empty once the offset reaches the
/// line count.
pub open spec fn viewport_model(lines: Seq<Seq<SpanModel>>, offset: nat) -> Seq<Seq<SpanModel>> {
    if offset >= lines.len() {
        Seq::empty()
    } else {
        lines.skip(offset as int)
    }
}

fn placeholder_line() -> (r: StyledLine)
    ensures
        r@ == placeholder_line_model(),
{
    let mut spans: Vec<StyledSpan> = Vec::new();
    spans.push(StyledSpan {
        text: String::from_str("No item selected."),
        style: SpanStyle { fg: Color::Yellow, bold: true },
    });
    let r = StyledLine { spans };
    proof {
        assert(r@ =~= placeholder_line_model());
    }
    r
}

/// The show-all aggregation: every group in store order, every entry within
/// its group in stored order, each rendered by the line builder, and all the
/// resulting lines concatenated. Empty groups contribute nothing.
pub fn compose_all(store: &ConfigStore) -> (r: Vec<StyledLine>)
    ensures
        lines_view(r@) == all_lines_model(store@),
{
    let mut lines: Vec<StyledLine> = Vec::new();
    proof {
        assert(lines_view(lines@) =~= all_lines_model(store@.take(0)));
    }
    let mut g: usize = 0;
    while g < store.groups.len()
        invariant
            g <= store.groups.len(),
            store@.len() == store.groups@.len(),
            lines_view(lines@) == all_lines_model(store@.take(g as int)),
        decreases store.groups.len() - g,
    {
        let group = &store.groups[g];
        proof {
            assert(group@ == store@[g as int]);
            assert(lines_view(lines@) =~= all_lines_model(store@.take(g as int))
                + group_lines_model(group@.take(0)));
        }
        let mut e: usize = 0;
        while e < group.items.len()
            invariant
                e <= group.items.len(),
                g < store.groups@.len(),
                store@.len() == store.groups@.len(),
                group@ == store@[g as int],
                group@.len() == group.items@.len(),
                lines_view(lines@) == all_lines_model(store@.take(g as int)) + group_lines_model(
                    group@.take(e as int),
                ),
            decreases group.items.len() - e,
        {
            let mut entry_lines = entry_to_lines(&group.items[e]);
            let ghost entry_lines_snap = entry_lines@;
            let ghost pre = lines@;
            lines.append(&mut entry_lines);
            proof {
                let prev = group@.take(e as int);
                let next = group@.take(e as int + 1);
                assert(group@[e as int] == group.items@[e as int]@);
                assert(next =~= prev.push(group@[e as int]));
                assert(next.map_values(|x: EntryModel| entry_lines_model(x)) =~= prev.map_values(
                    |x: EntryModel| entry_lines_model(x),
                ).push(entry_lines_model(group@[e as int])));
                prev.map_values(|x: EntryModel| entry_lines_model(x)).lemma_flatten_push(
                    entry_lines_model(group@[e as int]),
                );
                assert(lines_view(lines@) =~= lines_view(pre) + lines_view(entry_lines_snap));
                assert(lines_view(lines@) =~= all_lines_model(store@.take(g as int))
                    + group_lines_model(next));
            }
            e += 1;
        }
        proof {
            assert(group@.take(group.items@.len() as int) =~= group@);
            let prev = store@.take(g as int);
            let next = store@.take(g as int + 1);
            assert(next =~= prev.push(store@[g as int]));
            assert(next.map_values(|x: Seq<EntryModel>| group_lines_model(x)) =~= prev.map_values(
                |x: Seq<EntryModel>| group_lines_model(x),
            ).push(group_lines_model(store@[g as int])));
            prev.map_values(|x: Seq<EntryModel>| group_lines_model(x)).lemma_flatten_push(
                group_lines_model(store@[g as int]),
            );
            assert(lines_view(lines@) =~= all_lines_model(next));
        }
        g += 1;
    }
    proof {
        assert(store@.take(store.groups@.len() as int) =~= store@);
    }
    lines
}

/// The mode branch of one render pass: the show-all concatenation, exactly
/// the selected entry's lines, or the single placeholder line when nothing is
/// selected. Total: every mode, selection and store yields defined output.
pub fn compose_lines(mode: DisplayMode, store: &ConfigStore, selected: Option<&ConfigEntry>) -> (r:
    Vec<StyledLine>)
    ensures
        lines_view(r@) == composed_lines_model(mode, store@, selected_model(selected)),
{
    match mode {
        DisplayMode::ShowAll => compose_all(store),
        DisplayMode::ShowSelected => match selected {
            Option::Some(entry) => entry_to_lines(entry),
            Option::None => {
                let mut lines: Vec<StyledLine> = Vec::new();
                lines.push(placeholder_line());
                proof {
                    assert(lines_view(lines@) =~= seq![placeholder_line_model()]);
                }
                lines
            },
        },
    }
}

/// Advances the composed lines by the scroll offset: the first `offset`
/// lines are dropped; an offset at or past the end yields an empty viewport,
/// never an error.
pub fn apply_scroll(lines: Vec<StyledLine>, offset: u16) -> (r: Vec<StyledLine>)
    ensures
        lines_view(r@) == viewport_model(lines_view(lines@), offset as nat),
{
    let off = offset as usize;
    if off >= lines.len() {
        let r: Vec<StyledLine> = Vec::new();
        proof {
            assert(lines_view(r@) =~= Seq::<Seq<SpanModel>>::empty());
        }
        r
    } else {
        let ghost orig = lines@;
        let mut rest = lines;
        let mut i: usize = 0;
        while i < off
            invariant
                i <= off,
                off < orig.len(),
                rest@ == orig.skip(i as int),
            decreases off - i,
        {
            rest.remove(0);
            proof {
                assert(rest@ =~= orig.skip(i as int + 1));
            }
            i += 1;
        }
        proof {
            assert(lines_view(rest@) =~= lines_view(orig).skip(off as int));
        }
        rest
    }
}

/// One full render pass short of painting: compose the lines for the mode and
/// apply the scroll offset.
pub fn compose_view(
    mode: DisplayMode,
    store: &ConfigStore,
    selected: Option<&ConfigEntry>,
    offset: u16,
) -> (r: Vec<StyledLine>)
    ensures
        lines_view(r@) == viewport_model(
            composed_lines_model(mode, store@, selected_model(selected)),
            offset as nat,
        ),
{
    let lines = compose_lines(mode, store, selected);
    apply_scroll(lines, offset)
}

/// Describes the panel that frames the composed lines.
#[derive(Clone, Debug)]
pub struct PanelFrame {
    pub title: String,
    pub title_fg: Color,
    pub border_fg: Color,
    pub rounded_border: bool,
    pub centered_title: bool,
    pub word_wrap: bool,
}

/// The panel frame of every render pass: a rounded border in the border
/// accent color, a centered title in the contrast color, and soft word-wrap
/// for lines longer than the panel width.
pub fn panel_frame() -> (r: PanelFrame)
    ensures
        r.title@ == " Configuration "@,
        r.title_fg == Color::White,
        r.border_fg == Color::LightMagenta,
        r.rounded_border,
        r.centered_title,
        r.word_wrap,
{
    PanelFrame {
        title: String::from_str(" Configuration "),
        title_fg: Color::White,
        border_fg: Color::LightMagenta,
        rounded_border: true,
        centered_title: true,
        word_wrap: true,
    }
}

/// Law: the show-all composition is the ordered concatenation of the line
/// builder's output for every entry — the groups flattened in store order,
/// each group's entries in stored order, with no omissions or reordering.
pub proof fn lemma_show_all_concat(groups: Seq<Seq<EntryModel>>)
    ensures
        all_lines_model(groups) == group_lines_model(groups.flatten()),
    decreases groups.len(),
{
    if groups.len() == 0 {
        assert(all_lines_model(groups) =~= group_lines_model(groups.flatten()));
    } else {
        let head = groups.first();
        let tail = groups.drop_first();
        lemma_show_all_concat(tail);
        let mapped = groups.map_values(|g: Seq<EntryModel>| group_lines_model(g));
        assert(mapped.drop_first() =~= tail.map_values(|g: Seq<EntryModel>| group_lines_model(g)));
        assert(all_lines_model(groups) == group_lines_model(head) + all_lines_model(tail));
        assert(groups.flatten() == head + tail.flatten());
        assert((head + tail.flatten()).map_values(|x: EntryModel| entry_lines_model(x))
            =~= head.map_values(|x: EntryModel| entry_lines_model(x)) + tail.flatten().map_values(
            |x: EntryModel| entry_lines_model(x),
        ));
        lemma_flatten_concat(
            head.map_values(|x: EntryModel| entry_lines_model(x)),
            tail.flatten().map_values(|x: EntryModel| entry_lines_model(x)),
        );
        assert(group_lines_model(groups.flatten()) == group_lines_model(head) + group_lines_model(
            tail.flatten(),
        ));
    }
}

/// Law: an offset at or past the end of the composed lines yields an empty
/// viewport; an offset within them yields the suffix that starts at line
/// index `offset`, so that line is the first one visible.
pub proof fn lemma_viewport_scroll(lines: Seq<Seq<SpanModel>>, offset: nat)
    ensures
        offset >= lines.len() ==> viewport_model(lines, offset) == Seq::<Seq<SpanModel>>::empty(),
        offset < lines.len() ==> viewport_model(lines, offset).len() == lines.len() - offset,
        offset < lines.len() ==> viewport_model(lines, offset).first() == lines[offset as int],
{
}

/// Law: in selected-entry mode with no selection the composition is exactly
/// the single placeholder line, whatever the store holds.
pub proof fn lemma_placeholder_independent_of_store(
    g1: Seq<Seq<EntryModel>>,
    g2: Seq<Seq<EntryModel>>,
)
    ensures
        composed_lines_model(DisplayMode::ShowSelected, g1, Option::None) == seq![
            placeholder_line_model(),
        ],
        composed_lines_model(DisplayMode::ShowSelected, g1, Option::None) == composed_lines_model(
            DisplayMode::ShowSelected,
            g2,
            Option::None,
        ),
{
}

/// Law: composing is deterministic — the composed viewport is a function of
/// the mode, the store, the selection and the offset alone, so two outputs
/// that meet the composer's contract on the same inputs are equal line for
/// line, span for span.
pub proof fn lemma_composer_deterministic(
    mode: DisplayMode,
    groups: Seq<Seq<EntryModel>>,
    selected: Option<EntryModel>,
    offset: nat,
    r1: Seq<Seq<SpanModel>>,
    r2: Seq<Seq<SpanModel>>,
)
    requires
        r1 == viewport_model(composed_lines_model(mode, groups, selected), offset),
        r2 == viewport_model(composed_lines_model(mode, groups, selected), offset),
    ensures
        r1 == r2,
{
}

} // verus!
