//! The conversation panel: what has been said about the pull request itself.

use vstd::prelude::*;

use crate::components::drafts::{composer_parts, composer_split};
use crate::drafts::DraftState;
use crate::layout::{center_share, centered_share, Rect};
use crate::paint::{line_of, page, plain, show, shown, span, Element, Line, SpanView};
use crate::pr::ConversationComment;
use crate::scroll::{clamp_offset, clamped_offset, ensure_visible, visible_offset};
use crate::strings::{concat3, concat5, decimal, number, views};
use crate::text::{truncate, truncated};

verus! {

broadcast use crate::paint::group_page;

/// How wide the panel is, in percent.
pub const PANEL_PERCENT_X: u16 = 80;

/// How high it is, in percent.
pub const PANEL_PERCENT_Y: u16 = 70;

/// What an empty conversation says.
pub open spec fn silence() -> Seq<Seq<SpanView>> {
    seq![
        line_of(" Nothing has been said about this pull request yet."@, Element::Muted),
        Seq::empty(),
        line_of(
            " The conversation is where the *why* of a pull request usually lives — the issue it came from, what was already tried, what was deliberately left out."@,
            Element::Muted,
        ),
    ]
}

/// The first line of a comment: who wrote it, and how long ago.
pub open spec fn comment_head(comment: ConversationComment, age: Seq<char>, selected: bool) -> Seq<
    SpanView,
> {
    seq![
        if selected { span(" ▸ "@, Element::Accent) } else { span("   "@, Element::Muted) },
        span(truncated(comment.author@ + " · "@ + age, 40), Element::Title),
    ]
}

/// The first `n` lines of a comment's text, indented.
pub open spec fn text_rows(body: Seq<Seq<SpanView>>, n: nat) -> Seq<Seq<SpanView>> {
    Seq::new(n, |i: int| line_of("     "@, Element::Bg) + body[i])
}

/// The first `n` comments, each with its rendered text and an empty line behind it.
pub open spec fn comment_blocks(
    comments: Seq<ConversationComment>,
    selected: Option<usize>,
    ages: Seq<Seq<char>>,
    bodies: Seq<Vec<Line>>,
    n: nat,
) -> Seq<Seq<SpanView>>
    decreases n,
{
    if n == 0 {
        Seq::empty()
    } else {
        let k = (n - 1) as int;
        (comment_blocks(comments, selected, ages, bodies, k as nat).push(
            comment_head(comments[k], ages[k], selected == Some(k as usize)),
        ) + text_rows(page(bodies[k]@), bodies[k]@.len())).push(Seq::empty())
    }
}

/// The panel's contents: one block per comment, newest last.
pub open spec fn conversation_lines(
    comments: Seq<ConversationComment>,
    selected: Option<usize>,
    ages: Seq<Seq<char>>,
    bodies: Seq<Vec<Line>>,
) -> Seq<Seq<SpanView>> {
    if comments.len() == 0 {
        silence()
    } else {
        comment_blocks(comments, selected, ages, bodies, comments.len())
    }
}

/// Where the block of comment `k` starts.
pub open spec fn block_start(bodies: Seq<Vec<Line>>, k: nat) -> nat
    decreases k,
{
    if k == 0 {
        0
    } else {
        block_start(bodies, (k - 1) as nat) + bodies[k - 1]@.len() + 2
    }
}

proof fn lemma_block_start(
    comments: Seq<ConversationComment>,
    selected: Option<usize>,
    ages: Seq<Seq<char>>,
    bodies: Seq<Vec<Line>>,
    n: nat,
)
    ensures
        comment_blocks(comments, selected, ages, bodies, n).len() == block_start(bodies, n),
    decreases n,
{
    if n > 0 {
        lemma_block_start(comments, selected, ages, bodies, (n - 1) as nat);
    }
}

/// The selected comment is marked, and the mark stands where its block starts.
pub proof fn lemma_the_selected_comment_is_marked(
    comments: Seq<ConversationComment>,
    selected: usize,
    ages: Seq<Seq<char>>,
    bodies: Seq<Vec<Line>>,
    n: nat,
)
    requires
        selected < n <= comments.len(),
    ensures
        ({
            let lines = comment_blocks(comments, Some(selected), ages, bodies, n);
            let at = block_start(bodies, selected as nat) as int;
            &&& at < lines.len()
            &&& lines[at] == comment_head(comments[selected as int], ages[selected as int], true)
        }),
    decreases n,
{
    lemma_block_start(comments, Some(selected), ages, bodies, (n - 1) as nat);
    if selected + 1 < n {
        lemma_the_selected_comment_is_marked(comments, selected, ages, bodies, (n - 1) as nat);
    }
}

fn silent() -> (r: Vec<Line>)
    ensures
        page(r@) == silence(),
{
    let mut out: Vec<Line> = Vec::new();
    out.push(
        Line::literal(" Nothing has been said about this pull request yet.", Element::Muted),
    );
    out.push(Line::new());
    out.push(
        Line::literal(
            " The conversation is where the *why* of a pull request usually lives — the issue it came from, what was already tried, what was deliberately left out.",
            Element::Muted,
        ),
    );
    assert(page(out@) =~= silence());
    out
}

fn add_text(out: &mut Vec<Line>, body: &Vec<Line>)
    ensures
        page(final(out)@) == page(old(out)@) + text_rows(page(body@), body@.len()),
{
    let ghost before = page(out@);
    assert(before + text_rows(page(body@), 0) =~= before);
    let mut i: usize = 0;
    while i < body.len()
        invariant
            i <= body@.len(),
            page(out@) == before + text_rows(page(body@), i as nat),
        decreases body@.len() - i,
    {
        let mut line = Line::literal("     ", Element::Bg);
        line.extend(body[i].clone());
        out.push(line);
        i += 1;
        assert(page(out@) =~= before + text_rows(page(body@), i as nat));
    }
}

/// The panel's contents, given how old each comment is and its text as it is rendered.
#[must_use]
pub fn lines(
    comments: &Vec<ConversationComment>,
    selected: Option<usize>,
    ages: &Vec<String>,
    bodies: &Vec<Vec<Line>>,
) -> (r: Vec<Line>)
    requires
        ages@.len() == comments@.len(),
        bodies@.len() == comments@.len(),
    ensures
        page(r@) == conversation_lines(comments@, selected, views(ages@), bodies@),
{
    if comments.len() == 0 {
        return silent();
    }
    let mut out: Vec<Line> = Vec::new();
    let ghost all = views(ages@);
    let mut i: usize = 0;
    while i < comments.len()
        invariant
            i <= comments@.len(),
            ages@.len() == comments@.len(),
            bodies@.len() == comments@.len(),
            all == views(ages@),
            page(out@) == comment_blocks(comments@, selected, all, bodies@, i as nat),
        decreases comments@.len() - i,
    {
        let chosen: bool = match selected {
            Some(at) => at == i,
            None => false,
        };
        let mut head = Line::new();
        if chosen {
            head.add_text(" ▸ ", Element::Accent);
        } else {
            head.add_text("   ", Element::Muted);
        }
        head.push(
            truncate(
                concat3(comments[i].author.as_str(), " · ", ages[i].as_str()).as_str(),
                40,
            ),
            plain(Element::Title),
        );
        assert(head@ =~= comment_head(comments@[i as int], all[i as int], chosen));
        out.push(head);
        add_text(&mut out, &bodies[i]);
        out.push(Line::new());
        i += 1;
    }
    out
}

/// The line that a comment's block starts at.
fn start_of_block(bodies: &Vec<Vec<Line>>, k: usize) -> (r: usize)
    requires
        k <= bodies@.len(),
        block_start(bodies@, k as nat) <= usize::MAX,
    ensures
        r == block_start(bodies@, k as nat),
{
    let mut at: usize = 0;
    let mut i: usize = 0;
    while i < k
        invariant
            i <= k <= bodies@.len(),
            at == block_start(bodies@, i as nat),
            block_start(bodies@, k as nat) <= usize::MAX,
        decreases k - i,
    {
        proof {
            lemma_starts_grow(bodies@, (i + 1) as nat, k as nat);
        }
        at = at + bodies[i].len() + 2;
        i += 1;
    }
    at
}

proof fn lemma_starts_grow(bodies: Seq<Vec<Line>>, i: nat, k: nat)
    requires
        i <= k,
    ensures
        block_start(bodies, i) <= block_start(bodies, k),
    decreases k,
{
    if i < k {
        lemma_starts_grow(bodies, i, (k - 1) as nat);
    }
}

/// Where the panel's window starts: where it is scrolled to, moved as far as the selected comment
/// needs.
pub open spec fn window_start(
    bodies: Seq<Vec<Line>>,
    selected: Option<usize>,
    scroll: nat,
    height: nat,
    len: nat,
) -> nat {
    match selected {
        Some(at) => if at < bodies.len() {
            visible_offset(block_start(bodies, at as nat), scroll, height, len)
        } else {
            clamped_offset(scroll, height, len)
        },
        None => clamped_offset(scroll, height, len),
    }
}

/// The part of the conversation that the panel shows.
#[must_use]
pub fn visible(
    comments: &Vec<ConversationComment>,
    selected: Option<usize>,
    ages: &Vec<String>,
    bodies: &Vec<Vec<Line>>,
    scroll: usize,
    height: usize,
) -> (r: Vec<Line>)
    requires
        ages@.len() == comments@.len(),
        bodies@.len() == comments@.len(),
    ensures
        ({
            let all = conversation_lines(comments@, selected, views(ages@), bodies@);
            page(r@) == shown(
                all,
                window_start(bodies@, selected, scroll as nat, height as nat, all.len()),
                height as nat,
            )
        }),
{
    let all = lines(comments, selected, ages, bodies);
    assert(page(all@).len() == all@.len());
    let offset: usize = match selected {
        Some(at) => if at < bodies.len() {
            proof {
                lemma_block_start(comments@, selected, views(ages@), bodies@, comments@.len());
                lemma_starts_grow(bodies@, at as nat, comments@.len());
            }
            let len: usize = all.len();
            ensure_visible(start_of_block(bodies, at), scroll, height, len)
        } else {
            clamp_offset(scroll, height, all.len())
        },
        None => clamp_offset(scroll, height, all.len()),
    };
    show(&all, offset, height)
}

/// The title of the panel.
#[must_use]
pub fn title(number_of: u64, count: usize) -> (r: String)
    ensures
        r@ == " conversation · #"@ + decimal(number_of as nat) + " · "@ + decimal(count as nat)
            + (if count == 1 { " comment "@ } else { " comments "@ }),
{
    concat5(
        " conversation · #",
        number(number_of).as_str(),
        " · ",
        number(count as u64).as_str(),
        if count == 1 { " comment " } else { " comments " },
    )
}

/// What the keys of the panel do.
pub open spec fn footer_words(drafts: DraftState, composing: bool, count: nat) -> Seq<char> {
    if composing {
        match drafts.composer {
            Some(composer) => if composer.target is Line {
                "Enter stages it · Alt-Enter adds a line"@
            } else {
                "Enter shows it · Alt-Enter adds a line"@
            },
            None => ""@,
        }
    } else if count == 0 {
        "c writes the first comment · Esc closes"@
    } else {
        "j/k move · c writes a comment · R refreshes · Esc closes"@
    }
}

/// What the panel's footer says the keys do.
#[must_use]
pub fn footer_hint(drafts: &DraftState, composing: bool, count: usize) -> (r: &'static str)
    ensures
        r@ == footer_words(*drafts, composing, count as nat),
{
    if composing {
        return match &drafts.composer {
            Some(composer) => composer.target.enter_hint(),
            None => "",
        };
    }
    if count == 0 {
        return "c writes the first comment · Esc closes";
    }
    "j/k move · c writes a comment · R refreshes · Esc closes"
}

/// Whether something is written that is not staged, which is then written inside the panel.
pub open spec fn composes_here(drafts: DraftState) -> bool {
    match drafts.composer {
        Some(composer) => !(composer.target is Line),
        None => false,
    }
}

/// Where the panel and the composer inside it stand.
///
/// The composer stands inside the panel: a text box behind a popup is one that nobody can see.
#[must_use]
pub fn places(area: Rect, drafts: &DraftState) -> (r: (Rect, Option<Rect>))
    ensures
        r == composer_parts(
            centered_share(area, PANEL_PERCENT_X, PANEL_PERCENT_Y),
            composes_here(*drafts),
        ),
{
    let whole = center_share(area, PANEL_PERCENT_X, PANEL_PERCENT_Y);
    let composing: bool = match &drafts.composer {
        Some(composer) => !composer.target.is_staged(),
        None => false,
    };
    composer_split(whole, composing)
}

} // verus!
