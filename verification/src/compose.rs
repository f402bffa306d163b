//! The frame composer: a pure function from the navigation state and the
//! snapshot buffer to a description of what the terminal should draw — a tab
//! strip plus one of four content panes. The drawing layer renders this
//! description with its widget toolkit; no decision is left to it.

use vstd::prelude::*;
use crate::nav::App;

verus! {

/// One tab title, split for styling: the first character is highlighted
/// distinctly from the rest.
pub struct TabLine {
    pub head: String,
    pub rest: String,
}

/// The tab strip: one split line per title, and the index of the active tab.
pub struct TabStrip {
    pub lines: Vec<TabLine>,
    pub selected: usize,
}

/// How a content pane is framed: the weather report's rounded border with
/// three edge-aligned title fragments, or a plain bordered box with one title.
pub enum PaneTitle {
    Report { left: String, center: String, right: String },
    Plain { title: String },
}

/// One content pane: its frame and its body text.
pub struct Pane {
    pub title: PaneTitle,
    pub body: String,
}

/// Everything one frame draws: a fixed-height tab strip band on top, the
/// selected content pane below.
pub struct FrameModel {
    pub tabs: TabStrip,
    pub pane: Pane,
}

/// The three title fragments of the weather report frame.
pub open spec fn report_title(t: PaneTitle) -> bool {
    &&& t matches PaneTitle::Report { left, center, right }
    &&& t->Report_left@ == "-Y-O-U-R-"@
    &&& t->Report_center@ == "-W-E-A-T-H-E-R-"@
    &&& t->Report_right@ == "-R-E-P-O-R-T-"@
}

/// Which pane each selected index shows: index 0 the weather report holding
/// the snapshot text verbatim, indices 1 to 3 fixed stub panes that do not
/// depend on the snapshot.
pub open spec fn pane_matches(p: Pane, selected: nat, snapshot: Seq<char>) -> bool {
    if selected == 0 {
        &&& report_title(p.title)
        &&& p.body@ == snapshot
    } else if selected == 1 {
        &&& p.title matches PaneTitle::Plain { title } && title@ == "inner 1"@
        &&& p.body@ == "hello"@
    } else if selected == 2 {
        &&& report_title(p.title)
        &&& p.body@ == "hello once"@
    } else {
        &&& p.title matches PaneTitle::Plain { title } && title@ == "inner 3"@
        &&& p.body@ == "hello again"@
    }
}

/// The tab strip splits every title after its first character and marks the
/// selected one.
pub open spec fn tabs_match(t: TabStrip, app: App) -> bool {
    &&& t.selected == app.index
    &&& t.lines@.len() == app.titles@.len()
    &&& forall|j: int|
        0 <= j < app.titles@.len() ==> {
            &&& (#[trigger] t.lines@[j]).head@ == app.titles@[j]@.subrange(0, 1)
            &&& t.lines@[j].rest@ == app.titles@[j]@.subrange(1, app.titles@[j]@.len() as int)
        }
}

fn split_title(title: &String) -> (r: TabLine)
    requires
        title@.len() >= 1,
    ensures
        r.head@ == title@.subrange(0, 1),
        r.rest@ == title@.subrange(1, title@.len() as int),
{
    let len = title.as_str().unicode_len();
    let head = title.as_str().substring_char(0, 1);
    let rest = title.as_str().substring_char(1, len);
    TabLine { head: String::from_str(head), rest: String::from_str(rest) }
}

fn build_tab_strip(app: &App) -> (r: TabStrip)
    requires
        app.wf(),
    ensures
        tabs_match(r, *app),
{
    let mut lines: Vec<TabLine> = Vec::new();
    let n = app.titles.len();
    let mut j: usize = 0;
    while j < n
        invariant
            app.wf(),
            n == app.titles@.len(),
            j <= n,
            lines@.len() == j,
            forall|k: int|
                0 <= k < j ==> {
                    &&& (#[trigger] lines@[k]).head@ == app.titles@[k]@.subrange(0, 1)
                    &&& lines@[k].rest@ == app.titles@[k]@.subrange(1, app.titles@[k]@.len() as int)
                },
        decreases n - j,
    {
        lines.push(split_title(&app.titles[j]));
        j = j + 1;
    }
    TabStrip { lines, selected: app.index }
}

fn report_frame() -> (r: PaneTitle)
    ensures
        report_title(r),
{
    PaneTitle::Report {
        left: String::from_str("-Y-O-U-R-"),
        center: String::from_str("-W-E-A-T-H-E-R-"),
        right: String::from_str("-R-E-P-O-R-T-"),
    }
}

fn build_pane(app: &App, snapshot: &String) -> (r: Pane)
    requires
        app.wf(),
        app.titles@.len() == 4,
    ensures
        pane_matches(r, app.index as nat, snapshot@),
{
    if app.index == 0 {
        Pane { title: report_frame(), body: snapshot.clone() }
    } else if app.index == 1 {
        Pane {
            title: PaneTitle::Plain { title: String::from_str("inner 1") },
            body: String::from_str("hello"),
        }
    } else if app.index == 2 {
        Pane { title: report_frame(), body: String::from_str("hello once") }
    } else {
        Pane {
            title: PaneTitle::Plain { title: String::from_str("inner 3") },
            body: String::from_str("hello again"),
        }
    }
}

/// Composes one frame from the navigation state and the already-refreshed
/// snapshot buffer. Pure: reads both, changes nothing.
pub fn compose(app: &App, snapshot: &String) -> (r: FrameModel)
    requires
        app.wf(),
        app.titles@.len() == 4,
    ensures
        tabs_match(r.tabs, *app),
        pane_matches(r.pane, app.index as nat, snapshot@),
{
    FrameModel { tabs: build_tab_strip(app), pane: build_pane(app, snapshot) }
}

} // verus!
