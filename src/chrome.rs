use vstd::prelude::*;

use crate::state::{BrowserState, WindowState};

verus! {

/// Width, in characters, of a tab's title in the tab strip.
pub const TITLE_WIDTH: usize = 15;

/// `n` spaces.
pub open spec fn spaces(n: nat) -> Seq<char>
    decreases n,
{
    if n == 0 {
        Seq::empty()
    } else {
        spaces((n - 1) as nat).push(' ')
    }
}

/// `t` cut or padded with spaces to exactly the title width.
pub open spec fn fitted(t: Seq<char>) -> Seq<char> {
    if t.len() >= TITLE_WIDTH {
        t.subrange(0, TITLE_WIDTH as int)
    } else {
        t + spaces((TITLE_WIDTH - t.len()) as nat)
    }
}

/// The title shown for a tab: its page title, or `No Title` where it has
/// none or an empty one.
pub open spec fn shown_title(b: BrowserState) -> Seq<char> {
    match b.title {
        Some(t) => if t@.len() > 0 {
            t@
        } else {
            "No Title"@
        },
        None => "No Title"@,
    }
}

/// One tab's cell in the strip: a `>` where it is selected, its title, a
/// `*` while it loads.
pub open spec fn tab_cell(b: BrowserState, selected: bool) -> Seq<char> {
    " "@ + (if selected { ">"@ } else { " "@ }) + " "@ + fitted(shown_title(b)) + " "@ + (if b.is_loading {
        "*"@
    } else {
        " "@
    }) + "|"@
}

/// The strip for the first `n` tabs.
pub open spec fn tab_strip(browsers: Seq<BrowserState>, current: Option<usize>, n: nat) -> Seq<char>
    decreases n,
{
    if n == 0 {
        "|"@
    } else {
        tab_strip(browsers, current, (n - 1) as nat) + tab_cell(
            browsers[n - 1],
            current == Some((n - 1) as usize),
        )
    }
}

/// `t` cut or padded to the title width.
fn fit_title(t: &str) -> (r: String)
    ensures
        r@ == fitted(t@),
{
    let len = t.unicode_len();
    if len >= TITLE_WIDTH {
        String::from_str(t.substring_char(0, TITLE_WIDTH))
    } else {
        let mut r = String::from_str(t);
        let mut i: usize = len;
        while i < TITLE_WIDTH
            invariant
                len <= i <= TITLE_WIDTH,
                len == t@.len(),
                r@ == t@ + spaces((i - len) as nat),
            decreases TITLE_WIDTH - i,
        {
            r.append(" ");
            proof {
                reveal_strlit(" ");
                assert(spaces((i + 1 - len) as nat) == spaces((i - len) as nat).push(' '));
                assert(t@ + spaces((i - len) as nat) + " "@ =~= t@ + spaces((i + 1 - len) as nat));
            }
            i = i + 1;
        }
        r
    }
}

/// The title bar text that lists a window's tabs, for backends that show
/// the tabs there.
pub fn tab_strip_title(state: &WindowState) -> (r: String)
    ensures
        r@ == tab_strip(state.browsers@, state.current_browser_index, state.browsers@.len()),
{
    let mut text = String::from_str("|");
    let mut idx: usize = 0;
    while idx < state.browsers.len()
        invariant
            idx <= state.browsers@.len(),
            text@ == tab_strip(state.browsers@, state.current_browser_index, idx as nat),
        decreases state.browsers@.len() - idx,
    {
        let b = &state.browsers[idx];
        let ghost before = text@;
        text.append(" ");
        if state.current_browser_index == Some(idx) {
            text.append(">");
        } else {
            text.append(" ");
        }
        text.append(" ");
        let title = match &b.title {
            Some(t) => if t.as_str().unicode_len() > 0 {
                t.as_str()
            } else {
                "No Title"
            },
            None => "No Title",
        };
        let fitted_title = fit_title(title);
        text.append(fitted_title.as_str());
        text.append(" ");
        if b.is_loading {
            text.append("*");
        } else {
            text.append(" ");
        }
        text.append("|");
        proof {
            let selected = state.current_browser_index == Some(idx);
            assert(text@ =~= before + tab_cell(*b, selected));
        }
        idx = idx + 1;
    }
    text
}

} // verus!
