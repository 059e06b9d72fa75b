//! The help overlay: its sections of key bindings, line by line.

use vstd::prelude::*;
use crate::text::{chars_of, string_of};

verus! {

/// The number of lines of the help text.
pub const HELP_LINE_COUNT: u16 = 33;

/// A line of the help overlay.
#[derive(Debug)]
pub enum HelpLine {
    /// The empty line between two sections.
    Blank,
    /// The title of a section.
    Heading(String),
    /// A key, padded to its column, and what it does.
    Binding { key: String, description: String },
}

/// What a help line holds, as text.
pub enum HelpLineView {
    Blank,
    Heading(Seq<char>),
    Binding { key: Seq<char>, description: Seq<char> },
}

impl View for HelpLine {
    type V = HelpLineView;

    open spec fn view(&self) -> HelpLineView {
        match self {
            HelpLine::Blank => HelpLineView::Blank,
            HelpLine::Heading(t) => HelpLineView::Heading(t@),
            HelpLine::Binding { key, description } => HelpLineView::Binding {
                key: key@,
                description: description@,
            },
        }
    }
}

/// The sections of the help text: a title and its keys with what they do.
pub open spec fn help_sections() -> Seq<(Seq<char>, Seq<(Seq<char>, Seq<char>)>)> {
    seq![
        ("Navigation"@, seq![
            ("Tab / Shift+Tab"@, "Switch pane"@),
            ("j/k, ↑/↓"@, "Move by one"@),
            ("PgDn / PgUp"@, "Move by ten"@),
            ("g / G"@, "Jump top / bottom"@),
            ("n"@, "Load next page"@),
            ("Esc"@, "Back"@),
        ]),
        ("Actions"@, seq![
            ("Enter"@, "Watch stream"@),
            ("s"@, "Save / unsave"@),
            ("/"@, "Search"@),
            ("c"@, "Categories"@),
            ("v"@, "VODs for selected"@),
            ("f"@, "Following (OAuth)"@),
            ("r"@, "Refresh current view"@),
            ("q"@, "Quit"@),
        ]),
        ("Chat"@, seq![
            ("Tab"@, "Focus chat"@),
            ("type + Enter"@, "Send message"@),
            ("↑ / ↓"@, "Recall prior message"@),
            ("Esc"@, "Back to browse"@),
        ]),
        ("Quality"@, seq![
            ("j/k, ↑/↓"@, "Select quality"@),
            ("Enter"@, "Confirm"@),
            ("Esc"@, "Default quality"@),
        ]),
        ("Help overlay"@, seq![
            ("j/k, ↑/↓"@, "Scroll"@),
            ("g / G"@, "Top / bottom"@),
            ("? / Esc / q"@, "Close"@),
        ]),
    ]
}

/// `n` spaces.
pub open spec fn spaces(n: nat) -> Seq<char>
    decreases n,
{
    if n == 0 {
        Seq::empty()
    } else {
        spaces((n - 1) as nat).push(' ')
    }
}

/// A key as the help overlay prints it: indented by two and padded with
/// spaces to sixteen characters (`format!("  {:<16}", key)`).
pub open spec fn key_column(key: Seq<char>) -> Seq<char> {
    "  "@ + key + if key.len() < 16 {
        spaces((16 - key.len()) as nat)
    } else {
        Seq::empty()
    }
}

/// The lines of the binding list `b`.
pub open spec fn binding_lines(b: Seq<(Seq<char>, Seq<char>)>) -> Seq<HelpLineView> {
    b.map_values(|kd: (Seq<char>, Seq<char>)| HelpLineView::Binding { key: key_column(kd.0), description: kd.1 })
}

/// The lines of the first `k` sections: each section's title and bindings,
/// with a blank line between sections.
pub open spec fn section_lines(s: Seq<(Seq<char>, Seq<(Seq<char>, Seq<char>)>)>, k: nat) -> Seq<HelpLineView>
    decreases k,
{
    if k == 0 {
        Seq::empty()
    } else {
        let j = (k - 1) as int;
        let sep = if j > 0 {
            seq![HelpLineView::Blank]
        } else {
            Seq::empty()
        };
        section_lines(s, (k - 1) as nat) + sep + seq![HelpLineView::Heading(s[j].0)]
            + binding_lines(s[j].1)
    }
}

/// The whole help text, line by line.
pub open spec fn help_text() -> Seq<HelpLineView> {
    section_lines(help_sections(), help_sections().len())
}

fn padded_key(key: &str) -> (res: String)
    ensures
        res@ == key_column(key@),
{
    let mut out: Vec<char> = Vec::new();
    out.push(' ');
    out.push(' ');
    let mut k = chars_of(key);
    let n = k.len();
    out.append(&mut k);
    let mut i: usize = n;
    proof {
        reveal_strlit("  ");
        assert(spaces(0) == Seq::<char>::empty());
        assert(out@ == "  "@.add(key@).add(if n < 16 { spaces((i - n) as nat) } else { Seq::empty() }));
    }
    while i < 16
        invariant
            n == key@.len(),
            n <= i,
            n < 16 ==> i <= 16,
            out@ == "  "@.add(key@).add(if n < 16 { spaces((i - n) as nat) } else { Seq::empty() }),
        decreases 16 - i,
    {
        proof {
            reveal_strlit("  ");
        }
        out.push(' ');
        i = i + 1;
    }
    proof {
        reveal_strlit("  ");
    }
    string_of(&out)
}

fn section_table() -> (res: Vec<(&'static str, Vec<(&'static str, &'static str)>)>)
    ensures
        res@.len() == help_sections().len(),
        forall|i: int|
            0 <= i < res@.len() ==> #[trigger] res@[i].0@ == help_sections()[i].0
                && res@[i].1@.len() == help_sections()[i].1.len() && forall|j: int|
                0 <= j < res@[i].1@.len() ==> #[trigger] res@[i].1@[j].0@ == help_sections()[i].1[j].0
                    && res@[i].1@[j].1@ == help_sections()[i].1[j].1,
{
    let mut t: Vec<(&'static str, Vec<(&'static str, &'static str)>)> = Vec::new();
    t.push(("Navigation", vec![
        ("Tab / Shift+Tab", "Switch pane"),
        ("j/k, ↑/↓", "Move by one"),
        ("PgDn / PgUp", "Move by ten"),
        ("g / G", "Jump top / bottom"),
        ("n", "Load next page"),
        ("Esc", "Back"),
    ]));
    t.push(("Actions", vec![
        ("Enter", "Watch stream"),
        ("s", "Save / unsave"),
        ("/", "Search"),
        ("c", "Categories"),
        ("v", "VODs for selected"),
        ("f", "Following (OAuth)"),
        ("r", "Refresh current view"),
        ("q", "Quit"),
    ]));
    t.push(("Chat", vec![
        ("Tab", "Focus chat"),
        ("type + Enter", "Send message"),
        ("↑ / ↓", "Recall prior message"),
        ("Esc", "Back to browse"),
    ]));
    t.push(("Quality", vec![
        ("j/k, ↑/↓", "Select quality"),
        ("Enter", "Confirm"),
        ("Esc", "Default quality"),
    ]));
    t.push(("Help overlay", vec![
        ("j/k, ↑/↓", "Scroll"),
        ("g / G", "Top / bottom"),
        ("? / Esc / q", "Close"),
    ]));
    t
}

/// The help text, line by line.
pub fn help_lines() -> (res: Vec<HelpLine>)
    ensures
        res@.map_values(|l: HelpLine| l@) == help_text(),
{
    let table = section_table();
    let mut lines: Vec<HelpLine> = Vec::new();
    let mut i: usize = 0;
    while i < table.len()
        invariant
            table@.len() == help_sections().len(),
            forall|a: int|
                0 <= a < table@.len() ==> #[trigger] table@[a].0@ == help_sections()[a].0
                    && table@[a].1@.len() == help_sections()[a].1.len() && forall|b: int|
                    0 <= b < table@[a].1@.len() ==> #[trigger] table@[a].1@[b].0@
                        == help_sections()[a].1[b].0 && table@[a].1@[b].1@
                        == help_sections()[a].1[b].1,
            i <= table.len(),
            lines@.map_values(|l: HelpLine| l@) == section_lines(help_sections(), i as nat),
        decreases table.len() - i,
    {
        let ghost before = lines@.map_values(|l: HelpLine| l@);
        if i > 0 {
            lines.push(HelpLine::Blank);
        }
        lines.push(HelpLine::Heading(String::from_str(table[i].0)));
        let ghost mid = lines@.map_values(|l: HelpLine| l@);
        assert(mid == before + (if i > 0 {
            seq![HelpLineView::Blank]
        } else {
            Seq::empty()
        }) + seq![HelpLineView::Heading(help_sections()[i as int].0)]);
        let bindings = &table[i].1;
        let mut j: usize = 0;
        assert(help_sections()[i as int].1.subrange(0, 0) =~= Seq::<(Seq<char>, Seq<char>)>::empty());
        assert(binding_lines(Seq::<(Seq<char>, Seq<char>)>::empty()) =~= Seq::<HelpLineView>::empty());
        assert(mid + binding_lines(help_sections()[i as int].1.subrange(0, 0)) =~= mid);
        while j < bindings.len()
            invariant
                i < table@.len(),
                bindings@ == table@[i as int].1@,
                bindings@.len() == help_sections()[i as int].1.len(),
                forall|b: int|
                    0 <= b < bindings@.len() ==> #[trigger] bindings@[b].0@
                        == help_sections()[i as int].1[b].0 && bindings@[b].1@
                        == help_sections()[i as int].1[b].1,
                j <= bindings.len(),
                lines@.map_values(|l: HelpLine| l@) == mid + binding_lines(
                    help_sections()[i as int].1.subrange(0, j as int),
                ),
            decreases bindings.len() - j,
        {
            let (k, d) = bindings[j];
            let ghost prev = lines@.map_values(|l: HelpLine| l@);
            let line = HelpLine::Binding { key: padded_key(k), description: String::from_str(d) };
            let ghost lv = line@;
            lines.push(line);
            let ghost sec = help_sections()[i as int].1;
            assert(lines@.map_values(|l: HelpLine| l@) =~= prev.push(lv));
            assert(sec.subrange(0, j + 1) =~= sec.subrange(0, j as int).push(sec[j as int]));
            assert(binding_lines(sec.subrange(0, j + 1)) =~= binding_lines(sec.subrange(0, j as int)).push(lv));
            assert(lines@.map_values(|l: HelpLine| l@) =~= mid + binding_lines(
                help_sections()[i as int].1.subrange(0, j + 1),
            ));
            j = j + 1;
        }
        assert(help_sections()[i as int].1.subrange(0, j as int) == help_sections()[i as int].1);
        i = i + 1;
    }
    lines
}

/// The number of lines of the help text.
pub fn total_lines() -> (res: u16)
    ensures
        res as nat == help_text().len(),
        res == HELP_LINE_COUNT,
{
    let lines = help_lines();
    proof {
        reveal_with_fuel(section_lines, 6);
        assert(help_text().len() == 33);
    }
    assert(lines@.map_values(|l: HelpLine| l@).len() == lines@.len());
    lines.len() as u16
}

} // verus!
