//! The regions of a character sheet, built from nested splits.
use crate::layout::{layout, split, Constraint, Direction, Rect};
use vstd::prelude::*;

verus! {

/// One `Percentage` constraint for each of `ps`, in order.
pub open spec fn percents(ps: Seq<u16>) -> Seq<Constraint> {
    ps.map_values(|p: u16| Constraint::Percentage(p))
}

/// Splits `parent` along `direction` into shares of the given percentages,
/// after taking `margin` cells off every side.
pub fn create_layout(parent: &Rect, direction: Direction, percentages: &[u16], margin: u16) -> (r:
    Vec<Rect>)
    requires
        parent.wf(),
    ensures
        r@ == layout(*parent, direction, margin, percents(percentages@)),
        r@.len() == percentages@.len(),
        forall|i: int| 0 <= i < r@.len() ==> (#[trigger] r@[i]).wf(),
{
    let mut constraints: Vec<Constraint> = Vec::new();
    let mut i: usize = 0;
    while i < percentages.len()
        invariant
            0 <= i <= percentages@.len(),
            constraints@ == percents(percentages@.subrange(0, i as int)),
        decreases percentages@.len() - i,
    {
        constraints.push(Constraint::Percentage(percentages[i]));
        i = i + 1;
        assert(constraints@ =~= percents(percentages@.subrange(0, i as int)));
    }
    assert(percentages@.subrange(0, i as int) =~= percentages@);
    split(*parent, direction, margin, constraints.as_slice())
}

/// Region `i` of `area` split along `d` into the percentages `ps` with margin `m`.
pub open spec fn part(area: Rect, d: Direction, ps: Seq<u16>, m: u16, i: int) -> Rect {
    layout(area, d, m, percents(ps))[i]
}

/// A bordered box and the region its content goes in.
#[derive(Clone, Copy, Debug, PartialEq, Eq, Structural)]
pub struct Framed {
    pub frame: Rect,
    pub body: Rect,
}

/// A bordered box and the two regions, one above the other or side by side,
/// that its content goes in.
#[derive(Clone, Copy, Debug, PartialEq, Eq, Structural)]
pub struct FramedPair {
    pub frame: Rect,
    pub first: Rect,
    pub second: Rect,
}

/// The header: a titled box holding the portrait, the name and details, and
/// the two rest buttons.
#[derive(Clone, Copy, Debug, PartialEq, Eq, Structural)]
pub struct HeaderLayout {
    pub frame: Rect,
    pub picture: Rect,
    pub identity: Rect,
    pub short_rest: Framed,
    pub long_rest: Framed,
}

/// The main panel: a box holding the tab bar, the spellcasting modifiers and
/// the spell table.
#[derive(Clone, Copy, Debug, PartialEq, Eq, Structural)]
pub struct PanelLayout {
    pub frame: Rect,
    pub tabs: Rect,
    pub modifiers: Rect,
    pub spells: Framed,
}

/// The body of the sheet: saving throws and proficiencies on the left, skills
/// and senses in the centre, the main panel on the right.
#[derive(Clone, Copy, Debug, PartialEq, Eq, Structural)]
pub struct MainLayout {
    pub saving_throws: FramedPair,
    pub proficiencies: Framed,
    pub skills: Framed,
    pub senses: FramedPair,
    pub panel: PanelLayout,
}

/// Every region of the sheet: header, stat strip, body and footer.
#[derive(Clone, Copy, Debug, PartialEq, Eq, Structural)]
pub struct ScreenLayout {
    pub header: HeaderLayout,
    pub stats: FramedPair,
    pub main: MainLayout,
    pub footer: Rect,
}

/// A rest button: a box three rows tall (or as tall as `area`, if it is
/// shorter) at the top of `area`, and its label inside it.
pub open spec fn rest_button_spec(area: Rect) -> Framed {
    Framed {
        frame: Rect {
            height: if area.height <= 3 {
                area.height
            } else {
                3
            },
            ..area
        },
        body: part(area, Direction::Horizontal, seq![100u16], 1, 0),
    }
}

/// The header's regions within `area`.
pub open spec fn header_spec(area: Rect) -> HeaderLayout {
    let cols = seq![10u16, 30, 30, 40];
    let rests = part(area, Direction::Horizontal, cols, 1, 3);
    HeaderLayout {
        frame: area,
        picture: part(area, Direction::Horizontal, cols, 1, 0),
        identity: part(area, Direction::Horizontal, cols, 1, 1),
        short_rest: rest_button_spec(part(rests, Direction::Horizontal, seq![50u16, 50], 1, 0)),
        long_rest: rest_button_spec(part(rests, Direction::Horizontal, seq![50u16, 50], 1, 1)),
    }
}

/// The stat strip's regions within `area`: ability scores, then hit points.
pub open spec fn player_stats_spec(area: Rect) -> FramedPair {
    let cols = seq![70u16, 30];
    FramedPair {
        frame: area,
        first: part(area, Direction::Horizontal, cols, 1, 0),
        second: part(area, Direction::Horizontal, cols, 1, 1),
    }
}

/// The saving throws box within `area`: the throws, then the advantages.
pub open spec fn saving_throws_spec(area: Rect) -> FramedPair {
    let rows = seq![80u16, 20];
    FramedPair {
        frame: area,
        first: part(area, Direction::Vertical, rows, 2, 0),
        second: part(area, Direction::Vertical, rows, 2, 1),
    }
}

/// A box within `area` whose content is inset by `margin`.
pub open spec fn framed_spec(area: Rect, margin: u16) -> Framed {
    Framed { frame: area, body: part(area, Direction::Vertical, seq![100u16], margin, 0) }
}

/// The senses box within `area`: the passive scores, then darkvision.
pub open spec fn senses_spec(area: Rect) -> FramedPair {
    let rows = seq![80u16, 20];
    FramedPair {
        frame: area,
        first: part(area, Direction::Vertical, rows, 1, 0),
        second: part(area, Direction::Vertical, rows, 1, 1),
    }
}

/// The main panel's regions within `area`.
pub open spec fn main_panel_spec(area: Rect) -> PanelLayout {
    let rows = seq![10u16, 90];
    let tab = part(area, Direction::Vertical, rows, 1, 1);
    PanelLayout {
        frame: area,
        tabs: part(area, Direction::Vertical, rows, 1, 0),
        modifiers: part(tab, Direction::Vertical, rows, 2, 0),
        spells: framed_spec(part(tab, Direction::Vertical, rows, 2, 1), 2),
    }
}

/// The body's regions within `area`.
pub open spec fn main_spec(area: Rect) -> MainLayout {
    let cols = seq![25u16, 25, 50];
    let left = part(area, Direction::Horizontal, cols, 1, 0);
    let center = part(area, Direction::Horizontal, cols, 1, 1);
    MainLayout {
        saving_throws: saving_throws_spec(part(left, Direction::Vertical, seq![35u16, 65], 1, 0)),
        proficiencies: framed_spec(part(left, Direction::Vertical, seq![35u16, 65], 1, 1), 2),
        skills: framed_spec(part(center, Direction::Vertical, seq![80u16, 20], 1, 0), 1),
        senses: senses_spec(part(center, Direction::Vertical, seq![80u16, 20], 1, 1)),
        panel: main_panel_spec(part(area, Direction::Horizontal, cols, 1, 2)),
    }
}

/// The whole sheet's regions within the screen `area`.
pub open spec fn screen_spec(area: Rect) -> ScreenLayout {
    let rows = seq![15u16, 10, 70, 5];
    ScreenLayout {
        header: header_spec(part(area, Direction::Vertical, rows, 1, 0)),
        stats: player_stats_spec(part(area, Direction::Vertical, rows, 1, 1)),
        main: main_spec(part(area, Direction::Vertical, rows, 1, 2)),
        footer: part(area, Direction::Vertical, rows, 1, 3),
    }
}

/// A rest button within `area`.
pub fn rest_button_layout(area: Rect) -> (r: Framed)
    requires
        area.wf(),
    ensures
        r == rest_button_spec(area),
{
    let height = if area.height <= 3 {
        area.height
    } else {
        3
    };
    let whole: [u16; 1] = [100];
    assert(whole@ =~= seq![100u16]);
    let label = create_layout(&area, Direction::Horizontal, &whole, 1);
    Framed { frame: Rect { height, ..area }, body: label[0] }
}

/// The header within `area`.
pub fn player_header_layout(area: Rect) -> (r: HeaderLayout)
    requires
        area.wf(),
    ensures
        r == header_spec(area),
{
    let cols: [u16; 4] = [10, 30, 30, 40];
    let halves: [u16; 2] = [50, 50];
    assert(cols@ =~= seq![10u16, 30, 30, 40]);
    assert(halves@ =~= seq![50u16, 50]);
    let inner = create_layout(&area, Direction::Horizontal, &cols, 1);
    let rests = create_layout(&inner[3], Direction::Horizontal, &halves, 1);
    HeaderLayout {
        frame: area,
        picture: inner[0],
        identity: inner[1],
        short_rest: rest_button_layout(rests[0]),
        long_rest: rest_button_layout(rests[1]),
    }
}

/// The stat strip within `area`.
pub fn player_stats_layout(area: Rect) -> (r: FramedPair)
    requires
        area.wf(),
    ensures
        r == player_stats_spec(area),
{
    let cols: [u16; 2] = [70, 30];
    assert(cols@ =~= seq![70u16, 30]);
    let inner = create_layout(&area, Direction::Horizontal, &cols, 1);
    FramedPair { frame: area, first: inner[0], second: inner[1] }
}

/// The saving throws box within `area`.
pub fn saving_throws_layout(area: Rect) -> (r: FramedPair)
    requires
        area.wf(),
    ensures
        r == saving_throws_spec(area),
{
    let rows: [u16; 2] = [80, 20];
    assert(rows@ =~= seq![80u16, 20]);
    let inner = create_layout(&area, Direction::Vertical, &rows, 2);
    FramedPair { frame: area, first: inner[0], second: inner[1] }
}

/// A box within `area` whose content is inset by `margin`: the
/// proficiencies, the skills table and the spell table are drawn in one.
pub fn framed_layout(area: Rect, margin: u16) -> (r: Framed)
    requires
        area.wf(),
    ensures
        r == framed_spec(area, margin),
{
    let whole: [u16; 1] = [100];
    assert(whole@ =~= seq![100u16]);
    let inner = create_layout(&area, Direction::Vertical, &whole, margin);
    Framed { frame: area, body: inner[0] }
}

/// The senses box within `area`.
pub fn senses_layout(area: Rect) -> (r: FramedPair)
    requires
        area.wf(),
    ensures
        r == senses_spec(area),
{
    let rows: [u16; 2] = [80, 20];
    assert(rows@ =~= seq![80u16, 20]);
    let inner = create_layout(&area, Direction::Vertical, &rows, 1);
    FramedPair { frame: area, first: inner[0], second: inner[1] }
}

/// The main panel within `area`.
pub fn main_panel_layout(area: Rect) -> (r: PanelLayout)
    requires
        area.wf(),
    ensures
        r == main_panel_spec(area),
{
    let rows: [u16; 2] = [10, 90];
    assert(rows@ =~= seq![10u16, 90]);
    let inner = create_layout(&area, Direction::Vertical, &rows, 1);
    let tab = create_layout(&inner[1], Direction::Vertical, &rows, 2);
    PanelLayout {
        frame: area,
        tabs: inner[0],
        modifiers: tab[0],
        spells: framed_layout(tab[1], 2),
    }
}

/// The body of the sheet within `area`.
pub fn main_layout(area: Rect) -> (r: MainLayout)
    requires
        area.wf(),
    ensures
        r == main_spec(area),
{
    let cols: [u16; 3] = [25, 25, 50];
    let left_rows: [u16; 2] = [35, 65];
    let center_rows: [u16; 2] = [80, 20];
    assert(cols@ =~= seq![25u16, 25, 50]);
    assert(left_rows@ =~= seq![35u16, 65]);
    assert(center_rows@ =~= seq![80u16, 20]);
    let columns = create_layout(&area, Direction::Horizontal, &cols, 1);
    let left = create_layout(&columns[0], Direction::Vertical, &left_rows, 1);
    let center = create_layout(&columns[1], Direction::Vertical, &center_rows, 1);
    MainLayout {
        saving_throws: saving_throws_layout(left[0]),
        proficiencies: framed_layout(left[1], 2),
        skills: framed_layout(center[0], 1),
        senses: senses_layout(center[1]),
        panel: main_panel_layout(columns[2]),
    }
}

/// Every region of the sheet within the screen `area`.
pub fn screen_layout(area: Rect) -> (r: ScreenLayout)
    requires
        area.wf(),
    ensures
        r == screen_spec(area),
{
    let rows: [u16; 4] = [15, 10, 70, 5];
    assert(rows@ =~= seq![15u16, 10, 70, 5]);
    let sections = create_layout(&area, Direction::Vertical, &rows, 1);
    ScreenLayout {
        header: player_header_layout(sections[0]),
        stats: player_stats_layout(sections[1]),
        main: main_layout(sections[2]),
        footer: sections[3],
    }
}

} // verus!
