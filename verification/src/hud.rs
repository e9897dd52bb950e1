//! The status bar: which mode is shown, and level meters.
use vstd::prelude::*;
use crate::app::App;
use crate::render::{mode_label, ViewMode};

verus! {

/// The status-bar mode text: the mode's label, or in auto mode `AUTO > ` followed by the
/// label of the mode auto mode currently shows.
pub open spec fn hud_mode_text(app: App) -> Seq<char> {
    if app.mode == ViewMode::Auto {
        "AUTO > "@ + mode_label(app.auto_mode)
    } else {
        mode_label(app.mode)
    }
}

/// A meter `[###--]` of `width` cells of which the first `filled` are `#`.
pub open spec fn meter_text(filled: nat, width: nat) -> Seq<char> {
    "["@ + Seq::new(width, |i: int| if i < filled {
        '#'
    } else {
        '-'
    }) + "]"@
}

impl App {
    /// The status-bar mode text, such as `AUTO > BARS` or `WAVE`.
    pub fn mode_label(&self) -> (s: String)
        ensures
            s@ == hud_mode_text(*self),
            self.mode == ViewMode::Auto ==> s@ == "AUTO > "@ + mode_label(self.shown_mode()),
            self.mode != ViewMode::Auto ==> s@ == mode_label(self.shown_mode()),
    {
        if self.mode == ViewMode::Auto {
            let mut s = String::from_str("AUTO > ");
            s.append(self.auto_mode.label());
            s
        } else {
            String::from_str(self.mode.label())
        }
    }
}

/// A level meter of `width` cells with the first `filled` marked; `filled` beyond the
/// width fills the whole meter.
pub fn level_meter(filled: usize, width: usize) -> (s: String)
    ensures
        s@ == meter_text(filled as nat, width as nat),
{
    let mut s = String::from_str("[");
    let mut i: usize = 0;
    while i < width
        invariant
            i <= width,
            s@ == "["@ + Seq::new(i as nat, |k: int| if k < filled {
                '#'
            } else {
                '-'
            }),
        decreases width - i,
    {
        let ghost before = s@;
        if i < filled {
            s.append("#");
        } else {
            s.append("-");
        }
        proof {
            reveal_strlit("#");
            reveal_strlit("-");
            assert(s@ =~= "["@ + Seq::new((i + 1) as nat, |k: int| if k < filled {
                '#'
            } else {
                '-'
            }));
        }
        i = i + 1;
    }
    s.append("]");
    proof {
        assert(Seq::new(width as nat, |k: int| if k < filled {
            '#'
        } else {
            '-'
        }) =~= Seq::new(i as nat, |k: int| if k < filled {
            '#'
        } else {
            '-'
        }));
    }
    s
}

/// The status text always names the mode on screen (what `active_mode` returns), and
/// in auto mode prefixes it with `AUTO > `.
pub proof fn lemma_hud_names_shown_mode(app: App)
    ensures
        app.mode == ViewMode::Auto ==> hud_mode_text(app) == "AUTO > "@ + mode_label(
            app.shown_mode(),
        ),
        app.mode != ViewMode::Auto ==> hud_mode_text(app) == mode_label(app.shown_mode()),
{
}

} // verus!
