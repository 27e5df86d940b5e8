//! Cmd-K / Ctrl-P style command palette: the state it keeps between
//! frames, item validation, query matching and keyboard navigation.
//!
//! Semantics:
//!
//! * **Open**: the host sets `state.open = true`.
//! * **Dismiss**: Escape, clicking outside, or selecting an item.
//! * **Select**: Enter picks the highlighted item; Up / Down move the
//!   highlight. The picked item's id is returned for the host to
//!   dispatch.
//!
//! Matching: case-insensitive substring, or initials of the label's
//! alphanumeric words ("otp" finds "Open Timeline Panel").

use crate::input::MaraKey;
use crate::text::{blank, chars_of, contains_chars, contains_text, is_blank, same_text};
use vstd::prelude::*;
use vstd::string::StrSliceExecFns;

verus! {

/// The keys the palette consumes before its text field sees input.
pub open spec fn is_palette_nav_key(key: MaraKey) -> bool {
    key == MaraKey::Escape || key == MaraKey::ArrowDown || key == MaraKey::ArrowUp || key
        == MaraKey::Enter
}

/// The navigation keys a host consumes for the palette before its text
/// field sees input, in the order they are applied.
pub fn palette_nav_keys() -> (keys: [MaraKey; 4])
    ensures
        keys@ == seq![MaraKey::Escape, MaraKey::ArrowDown, MaraKey::ArrowUp, MaraKey::Enter],
        forall|k: MaraKey| is_palette_nav_key(k) <==> keys@.contains(k),
{
    let keys = [MaraKey::Escape, MaraKey::ArrowDown, MaraKey::ArrowUp, MaraKey::Enter];
    proof {
        assert(keys@ =~= seq![MaraKey::Escape, MaraKey::ArrowDown, MaraKey::ArrowUp, MaraKey::Enter]);
        assert forall|k: MaraKey| is_palette_nav_key(k) <==> keys@.contains(k) by {
            if is_palette_nav_key(k) {
                if k == MaraKey::Escape {
                    assert(keys@[0] == k);
                } else if k == MaraKey::ArrowDown {
                    assert(keys@[1] == k);
                } else if k == MaraKey::ArrowUp {
                    assert(keys@[2] == k);
                } else {
                    assert(keys@[3] == k);
                }
            }
        }
    }
    keys
}

/// One entry in the palette's action list.
pub struct PaletteItem {
    pub id: &'static str,
    pub label: &'static str,
    /// Optional secondary hint — dim right-aligned text shown on each
    /// row (keybindings, categories).
    pub hint: Option<&'static str>,
}

/// An item is shown with visible text: non-blank id and label, and a
/// non-blank hint when it has one.
pub open spec fn item_visible(item: PaletteItem) -> bool {
    &&& !blank(item.id@)
    &&& !blank(item.label@)
    &&& match item.hint {
        Some(h) => !blank(h@),
        None => true,
    }
}

/// Every item is visible and no two items share an id.
pub open spec fn palette_items_valid(items: Seq<PaletteItem>) -> bool {
    &&& forall|i: int| 0 <= i < items.len() ==> item_visible(#[trigger] items[i])
    &&& forall|i: int, j: int|
        0 <= i < j < items.len() ==> (#[trigger] items[i]).id@ != (#[trigger] items[j]).id@
}

impl PaletteItem {
    pub fn new(id: &'static str, label: &'static str) -> (item: Self)
        requires
            !blank(id@),
            !blank(label@),
        ensures
            item.id == id,
            item.label == label,
            item.hint is None,
    {
        PaletteItem { id, label, hint: None }
    }

    pub fn with_hint(self, hint: &'static str) -> (item: Self)
        requires
            !blank(hint@),
        ensures
            item.id == self.id,
            item.label == self.label,
            item.hint == Some(hint),
    {
        PaletteItem { id: self.id, label: self.label, hint: Some(hint) }
    }
}

/// Persistent state the palette owns between frames.
#[derive(Debug, Clone)]
pub struct CommandPaletteState {
    /// Master toggle, set by the host; cleared on Escape, outside
    /// click and selection.
    pub open: bool,
    /// Current search query.
    pub query: String,
    /// Index into the filtered list of the highlighted row.
    pub selected: usize,
}

impl CommandPaletteState {
    /// A closed palette with an empty query.
    pub fn new() -> (s: Self)
        ensures
            !s.open,
            s.query@ == Seq::<char>::empty(),
            s.selected == 0,
    {
        CommandPaletteState { open: false, query: String::new(), selected: 0 }
    }
}

impl Default for CommandPaletteState {
    /// A closed palette with an empty query.
    fn default() -> (s: Self)
        ensures
            !s.open,
            s.query@ == Seq::<char>::empty(),
            s.selected == 0,
    {
        CommandPaletteState::new()
    }
}

/// What a navigation key asked the palette to do.
#[derive(Clone, Copy, Debug, PartialEq, Eq, Structural)]
pub enum PaletteKeyOutcome {
    /// Nothing to do beyond the state change (the key was navigation
    /// or not the palette's).
    Continue,
    Dismiss,
    PickSelected,
}

/// The selection clamped into a list of `filtered_len` rows.
pub open spec fn clamped_selection(selected: usize, filtered_len: usize) -> usize {
    if filtered_len == 0 {
        0
    } else if selected < filtered_len {
        selected
    } else {
        (filtered_len - 1) as usize
    }
}

/// Clamp the highlight into the filtered list (0 when it is empty).
pub fn clamp_palette_selection(state: &mut CommandPaletteState, filtered_len: usize)
    ensures
        final(state).selected == clamped_selection(old(state).selected, filtered_len),
        final(state).open == old(state).open,
        final(state).query == old(state).query,
{
    if filtered_len == 0 {
        state.selected = 0;
    } else if state.selected >= filtered_len {
        state.selected = filtered_len - 1;
    }
}

/// The palette state after one navigation key, and what it asked for.
pub open spec fn key_step(open: bool, selected: usize, key: MaraKey, filtered_len: usize) -> (
    bool,
    usize,
    PaletteKeyOutcome,
) {
    match key {
        MaraKey::Escape => (false, selected, PaletteKeyOutcome::Dismiss),
        MaraKey::ArrowDown => if filtered_len > 0 {
            (
                open,
                if selected + 1 < filtered_len {
                    (selected + 1) as usize
                } else {
                    (filtered_len - 1) as usize
                },
                PaletteKeyOutcome::Continue,
            )
        } else {
            (open, 0, PaletteKeyOutcome::Continue)
        },
        MaraKey::ArrowUp => (
            open,
            if selected > 0 {
                (selected - 1) as usize
            } else {
                0
            },
            PaletteKeyOutcome::Continue,
        ),
        MaraKey::Enter => if filtered_len > 0 {
            (open, clamped_selection(selected, filtered_len), PaletteKeyOutcome::PickSelected)
        } else {
            (open, selected, PaletteKeyOutcome::Continue)
        },
        _ => (open, selected, PaletteKeyOutcome::Continue),
    }
}

/// Apply one navigation key. Escape dismisses, Up / Down move the
/// highlight (clamped), Enter picks when there is something to pick;
/// every other key belongs to the text field and changes nothing.
pub fn apply_palette_key(state: &mut CommandPaletteState, key: MaraKey, filtered_len: usize) -> (r:
    PaletteKeyOutcome)
    ensures
        (final(state).open, final(state).selected, r) == key_step(
            old(state).open,
            old(state).selected,
            key,
            filtered_len,
        ),
        final(state).query == old(state).query,
{
    match key {
        MaraKey::Escape => {
            state.open = false;
            PaletteKeyOutcome::Dismiss
        },
        MaraKey::ArrowDown => {
            if filtered_len > 0 {
                if state.selected < filtered_len - 1 {
                    state.selected = state.selected + 1;
                } else {
                    state.selected = filtered_len - 1;
                }
            } else {
                state.selected = 0;
            }
            PaletteKeyOutcome::Continue
        },
        MaraKey::ArrowUp => {
            state.selected = state.selected.saturating_sub(1);
            PaletteKeyOutcome::Continue
        },
        MaraKey::Enter => {
            if filtered_len > 0 {
                clamp_palette_selection(state, filtered_len);
                PaletteKeyOutcome::PickSelected
            } else {
                PaletteKeyOutcome::Continue
            }
        },
        _ => PaletteKeyOutcome::Continue,
    }
}

/// The palette state after a run of keys, in order, and whether any of
/// them picked.
pub open spec fn keys_step(open: bool, selected: usize, keys: Seq<MaraKey>, filtered_len: usize) -> (
    bool,
    usize,
    bool,
)
    decreases keys.len(),
{
    if keys.len() == 0 {
        (open, selected, false)
    } else {
        let (o, s, picked) = keys_step(open, selected, keys.drop_last(), filtered_len);
        let (o2, s2, out) = key_step(o, s, keys.last(), filtered_len);
        (o2, s2, picked || out == PaletteKeyOutcome::PickSelected)
    }
}

/// Apply the navigation keys consumed this frame, in order. Returns
/// `PickSelected` when any of them picked, `None` otherwise.
pub fn apply_palette_consumed_keys(
    state: &mut CommandPaletteState,
    filtered_len: usize,
    keys: &[MaraKey],
) -> (r: PaletteKeyOutcome)
    ensures
        ({
            let (o, s, picked) = keys_step(old(state).open, old(state).selected, keys@, filtered_len);
            &&& final(state).open == o
            &&& final(state).selected == s
            &&& r == (if picked {
                PaletteKeyOutcome::PickSelected
            } else {
                PaletteKeyOutcome::Continue
            })
        }),
        final(state).query == old(state).query,
{
    let mut outcome = PaletteKeyOutcome::Continue;
    let mut i: usize = 0;
    while i < keys.len()
        invariant
            i <= keys@.len(),
            state.query == old(state).query,
            ({
                let (o, s, picked) = keys_step(
                    old(state).open,
                    old(state).selected,
                    keys@.take(i as int),
                    filtered_len,
                );
                &&& state.open == o
                &&& state.selected == s
                &&& outcome == (if picked {
                    PaletteKeyOutcome::PickSelected
                } else {
                    PaletteKeyOutcome::Continue
                })
            }),
        decreases keys@.len() - i,
    {
        proof {
            assert(keys@.take(i + 1).drop_last() =~= keys@.take(i as int));
        }
        if apply_palette_key(state, keys[i], filtered_len) == PaletteKeyOutcome::PickSelected {
            outcome = PaletteKeyOutcome::PickSelected;
        }
        i = i + 1;
    }
    proof {
        assert(keys@.take(keys@.len() as int) =~= keys@);
    }
    outcome
}

/// A changed query resets the highlight to the top of the list.
pub fn apply_palette_text_edit(state: &mut CommandPaletteState, query_changed: bool)
    ensures
        final(state).selected == (if query_changed {
            0
        } else {
            old(state).selected
        }),
        final(state).open == old(state).open,
        final(state).query == old(state).query,
{
    if query_changed {
        state.selected = 0;
    }
}

/// The separator drawn after row `row_index`: every row but the last
/// one gets the theme's separator.
pub fn palette_inter_row_separator_spec<S>(
    separator: Option<S>,
    row_index: usize,
    filtered_len: usize,
) -> (r: Option<S>)
    ensures
        r == (if row_index + 1 < filtered_len {
            separator
        } else {
            None
        }),
{
    if row_index < filtered_len && row_index + 1 < filtered_len {
        separator
    } else {
        None
    }
}

/// Whether `s` shows as visible text.
fn palette_text_ok(s: &str) -> (r: bool)
    ensures
        r == !blank(s@),
{
    !is_blank(s)
}

/// Check a palette's item list: visible text on every item and unique
/// ids. Hosts refuse to show a palette whose list fails.
pub fn validate_palette_items(items: &[PaletteItem]) -> (r: bool)
    ensures
        r == palette_items_valid(items@),
{
    let mut i: usize = 0;
    while i < items.len()
        invariant
            i <= items@.len(),
            palette_items_valid(items@.take(i as int)),
        decreases items@.len() - i,
    {
        let item = &items[i];
        let hint_ok = match item.hint {
            Some(h) => palette_text_ok(h),
            None => true,
        };
        if !palette_text_ok(item.id) || !palette_text_ok(item.label) || !hint_ok {
            proof {
                assert(!item_visible(items@[i as int]));
            }
            return false;
        }
        let mut j: usize = 0;
        while j < i
            invariant
                i < items@.len(),
                j <= i,
                forall|k: int| 0 <= k < j ==> items@[k].id@ != items@[i as int].id@,
            decreases i - j,
        {
            if same_text(items[j].id, items[i].id) {
                return false;
            }
            j = j + 1;
        }
        proof {
            let t = items@.take(i + 1);
            assert forall|a: int| 0 <= a < t.len() implies item_visible(#[trigger] t[a]) by {
                if a < i {
                    assert(t[a] == items@.take(i as int)[a]);
                }
            }
            assert forall|a: int, b: int|
                0 <= a < b < t.len() implies (#[trigger] t[a]).id@ != (#[trigger] t[b]).id@ by {
                if b < i {
                    assert(t[a] == items@.take(i as int)[a]);
                    assert(t[b] == items@.take(i as int)[b]);
                }
            }
        }
        i = i + 1;
    }
    proof {
        assert(items@.take(items@.len() as int) =~= items@);
    }
    true
}


/// What `str::to_lowercase` returns for a string.
pub uninterp spec fn lowercase(s: Seq<char>) -> Seq<char>;

/// Whether `char::is_alphanumeric` holds of a character.
pub uninterp spec fn alphanumeric(c: char) -> bool;

/// Calls `str::to_lowercase`: the string with every character mapped
/// to its Unicode lowercase form. Nothing is claimed of that mapping
/// beyond that it depends on the text alone.
#[verifier::external_body]
fn to_lowercase(s: &str) -> (r: String)
    ensures
        r@ == lowercase(s@),
{
    s.to_lowercase()
}

/// Calls `char::is_alphanumeric`: whether the character is
/// alphabetic or numeric in Unicode. Nothing is claimed of which
/// characters those are.
#[verifier::external_body]
fn is_alphanumeric(c: char) -> (r: bool)
    ensures
        r == alphanumeric(c),
{
    c.is_alphanumeric()
}

/// Position `i` of `s` starts an alphanumeric word.
pub open spec fn starts_word(s: Seq<char>, i: int) -> bool {
    alphanumeric(s[i]) && (i == 0 || !alphanumeric(s[i - 1]))
}

/// The first character of every alphanumeric word of `s`, in order
/// (words are separated by any non-alphanumeric character).
pub open spec fn initials(s: Seq<char>) -> Seq<char>
    decreases s.len(),
{
    if s.len() == 0 {
        Seq::empty()
    } else if starts_word(s, s.len() - 1) {
        initials(s.drop_last()).push(s.last())
    } else {
        initials(s.drop_last())
    }
}

/// `label` matches the (already lowercased) query `q`: `q` occurs in
/// the lowercased label, or in the initials of its words.
pub open spec fn label_matches(label: Seq<char>, q: Seq<char>) -> bool {
    contains_text(lowercase(label), q) || contains_text(initials(lowercase(label)), q)
}

/// The first character of every alphanumeric word of `s`, in order.
pub fn initials_of(s: &Vec<char>) -> (r: Vec<char>)
    ensures
        r@ == initials(s@),
{
    let mut out: Vec<char> = Vec::new();
    let mut prev_alnum = false;
    let mut i: usize = 0;
    while i < s.len()
        invariant
            i <= s@.len(),
            out@ == initials(s@.take(i as int)),
            i > 0 ==> prev_alnum == alphanumeric(s@[i - 1]),
        decreases s@.len() - i,
    {
        let c = s[i];
        let alnum = is_alphanumeric(c);
        proof {
            let t = s@.take(i + 1);
            assert(t.drop_last() =~= s@.take(i as int));
            assert(t.last() == c);
            if i > 0 {
                assert(t[i - 1] == s@[i - 1]);
            }
        }
        if alnum && (i == 0 || !prev_alnum) {
            out.push(c);
        }
        prev_alnum = alnum;
        i = i + 1;
    }
    proof {
        assert(s@.take(s@.len() as int) =~= s@);
    }
    out
}

/// What a lowercased label matches: `q` occurs in it, or in the
/// initials of its words.
pub open spec fn lowered_matches(lower: Seq<char>, q: Seq<char>) -> bool {
    contains_text(lower, q) || contains_text(initials(lower), q)
}

/// The match of an already lowercased label `lower` against the
/// lowercased query `q`: substring first, then the words' initials.
pub fn lowered_label_matches(lower: &str, q: &str) -> (r: bool)
    ensures
        r == lowered_matches(lower@, q@),
{
    let lower_chars = chars_of(lower);
    let q_chars = chars_of(q);
    if contains_chars(&lower_chars, &q_chars) {
        return true;
    }
    let inits = initials_of(&lower_chars);
    contains_chars(&inits, &q_chars)
}

/// Substring + initials match of `label` against the lowercased
/// query `q`.
pub fn matches(label: &str, q: &str) -> (r: bool)
    ensures
        r == label_matches(label@, q@),
{
    let lower = to_lowercase(label);
    lowered_label_matches(lower.as_str(), q)
}

/// Rows the palette lists for `query`: every item when the query is
/// empty, otherwise the items whose label matches the lowercased query.
pub open spec fn listed(items: Seq<PaletteItem>, query: Seq<char>, i: int) -> bool {
    query.len() == 0 || label_matches(items[i].label@, lowercase(query))
}

/// The indices of the listed items, in item order.
pub open spec fn filtered_indices(items: Seq<PaletteItem>, query: Seq<char>) -> Seq<usize>
    decreases items.len(),
{
    if items.len() == 0 {
        Seq::empty()
    } else {
        let rest = filtered_indices(items.drop_last(), query);
        if listed(items, query, items.len() - 1) {
            rest.push((items.len() - 1) as usize)
        } else {
            rest
        }
    }
}

proof fn lemma_listed_prefix(items: Seq<PaletteItem>, query: Seq<char>, n: int, i: int)
    requires
        0 <= i < n <= items.len(),
    ensures
        listed(items.take(n), query, i) == listed(items, query, i),
{
    assert(items.take(n)[i] == items[i]);
}

/// Filter `items` by `query` (case-insensitive substring or initials;
/// an empty query lists everything). Returns item indices in order.
/// The palette refuses an item list that [`validate_palette_items`]
/// rejects; hosts check it first.
pub fn palette_filtered_indices(items: &[PaletteItem], query: &str) -> (r: Vec<usize>)
    requires
        palette_items_valid(items@),
    ensures
        r@ == filtered_indices(items@, query@),
{
    let q = to_lowercase(query);
    let empty = query.unicode_len() == 0;
    let mut out: Vec<usize> = Vec::new();
    let mut i: usize = 0;
    while i < items.len()
        invariant
            i <= items@.len(),
            q@ == lowercase(query@),
            empty == (query@.len() == 0),
            out@ == filtered_indices(items@.take(i as int), query@),
        decreases items@.len() - i,
    {
        let keep = empty || matches(items[i].label, q.as_str());
        proof {
            let t = items@.take(i + 1);
            assert(t.drop_last() =~= items@.take(i as int));
            lemma_listed_prefix(items@, query@, i + 1, i as int);
        }
        if keep {
            out.push(i);
        }
        i = i + 1;
    }
    proof {
        assert(items@.take(items@.len() as int) =~= items@);
    }
    out
}

/// Every row the filter lists points into `items`, so the filter's
/// output always meets what [`palette_keyboard_pick`] asks of its rows.
pub proof fn law_filtered_indices_in_bounds(items: Seq<PaletteItem>, query: Seq<char>)
    ensures
        forall|k: int|
            0 <= k < filtered_indices(items, query).len() ==> (#[trigger] filtered_indices(
                items,
                query,
            )[k]) < items.len(),
    decreases items.len(),
{
    if items.len() > 0 {
        let t = items.drop_last();
        law_filtered_indices_in_bounds(t, query);
        let rest = filtered_indices(t, query);
        let all = filtered_indices(items, query);
        assert forall|k: int| 0 <= k < all.len() implies (#[trigger] all[k]) < items.len() by {
            if k < rest.len() {
                assert(all[k] == rest[k]);
            }
        }
    }
}

/// Keyboard half of a palette frame: clamp the highlight into the
/// `filtered` rows, apply the navigation keys consumed this frame, and
/// return the id of the item Enter picked, if any. Takes only an item
/// list that [`validate_palette_items`] accepts.
pub fn palette_keyboard_pick(
    state: &mut CommandPaletteState,
    items: &[PaletteItem],
    filtered: &[usize],
    keys: &[MaraKey],
) -> (picked: Option<&'static str>)
    requires
        palette_items_valid(items@),
        forall|k: int| 0 <= k < filtered@.len() ==> (#[trigger] filtered@[k]) < items@.len(),
    ensures
        ({
            let start = clamped_selection(old(state).selected, filtered@.len() as usize);
            let (o, s, pick) = keys_step(old(state).open, start, keys@, filtered@.len() as usize);
            &&& final(state).open == o
            &&& final(state).selected == s
            &&& final(state).query == old(state).query
            &&& picked == (if pick {
                Some(items@[filtered@[s as int] as int].id)
            } else {
                None
            })
        }),
{
    clamp_palette_selection(state, filtered.len());
    let outcome = apply_palette_consumed_keys(state, filtered.len(), keys);
    if outcome == PaletteKeyOutcome::PickSelected {
        proof {
            lemma_pick_in_range(
                clamped_selection(old(state).selected, filtered@.len() as usize),
                keys@,
                filtered@.len() as usize,
                old(state).open,
            );
        }
        Some(items[filtered[state.selected]].id)
    } else {
        None
    }
}

/// A run of keys that picked leaves the highlight inside the list.
proof fn lemma_pick_in_range(selected: usize, keys: Seq<MaraKey>, filtered_len: usize, open: bool)
    requires
        selected == 0 || selected < filtered_len,
    ensures
        ({
            let (o, s, pick) = keys_step(open, selected, keys, filtered_len);
            &&& (s == 0 || s < filtered_len)
            &&& (pick ==> s < filtered_len)
        }),
    decreases keys.len(),
{
    if keys.len() > 0 {
        lemma_pick_in_range(selected, keys.drop_last(), filtered_len, open);
    }
}

/// After a pick the palette closes, its query is cleared and the
/// highlight returns to the top; without a pick nothing changes.
pub fn finish_palette_pick(state: &mut CommandPaletteState, picked: Option<&'static str>)
    ensures
        picked is Some ==> !final(state).open && final(state).query@ == Seq::<char>::empty()
            && final(state).selected == 0,
        picked is None ==> final(state).open == old(state).open && final(state).query@ == old(
            state,
        ).query@ && final(state).selected == old(state).selected,
{
    if picked.is_some() {
        state.open = false;
        state.query = String::new();
        state.selected = 0;
    }
}


/// What an open palette picks in one frame: a clicked row's item, else
/// the item the navigation keys picked, if any. Rows are the items
/// the query at the start of the frame lists.
pub open spec fn frame_pick(
    items: Seq<PaletteItem>,
    query: Seq<char>,
    selected: usize,
    keys: Seq<MaraKey>,
    clicked_row: Option<usize>,
) -> Option<&'static str> {
    let rows = filtered_indices(items, query);
    let n = rows.len() as usize;
    let (o, s, key_pick) = keys_step(true, clamped_selection(selected, n), keys, n);
    if clicked_row is Some && clicked_row->0 < rows.len() {
        Some(items[rows[clicked_row->0 as int] as int].id)
    } else if key_pick {
        Some(items[rows[s as int] as int].id)
    } else {
        None
    }
}

/// One frame of the command palette, from what the host saw happen:
/// the navigation keys consumed this frame, the query the text field
/// holds if the user edited it, the row clicked (by position in the
/// listed rows) and whether a click landed outside the palette.
///
/// A closed palette does nothing and picks nothing. An open one lists
/// the rows its query matches, applies the keys, closes on a click
/// outside as on Escape, takes an edited query (back to the top row),
/// and picks a clicked row over a key pick. A pick closes the palette
/// and clears it.
pub fn palette_frame_step(
    state: &mut CommandPaletteState,
    items: &[PaletteItem],
    keys: &[MaraKey],
    edited_query: Option<String>,
    clicked_row: Option<usize>,
    clicked_outside: bool,
) -> (picked: Option<&'static str>)
    requires
        palette_items_valid(items@),
    ensures
        !old(state).open ==> picked is None && final(state).open == old(state).open
            && final(state).query@ == old(state).query@ && final(state).selected == old(state).selected,
        old(state).open ==> picked == frame_pick(
            items@,
            old(state).query@,
            old(state).selected,
            keys@,
            clicked_row,
        ),
        old(state).open && picked is Some ==> !final(state).open && final(state).query@ == Seq::<
            char,
        >::empty() && final(state).selected == 0,
        old(state).open && picked is None ==> ({
            let n = filtered_indices(items@, old(state).query@).len() as usize;
            let (o, s, key_pick) = keys_step(true, clamped_selection(old(state).selected, n), keys@, n);
            &&& final(state).open == (o && !clicked_outside)
            &&& final(state).query@ == (if edited_query is Some {
                edited_query->0@
            } else {
                old(state).query@
            })
            &&& final(state).selected == (if edited_query is Some {
                0
            } else {
                s
            })
        }),
{
    if !state.open {
        return None;
    }
    let filtered = palette_filtered_indices(items, state.query.as_str());
    proof {
        law_filtered_indices_in_bounds(items@, old(state).query@);
    }
    let mut picked = palette_keyboard_pick(state, items, &filtered, keys);
    if clicked_outside {
        state.open = false;
    }
    match edited_query {
        Some(q) => {
            state.query = q;
            apply_palette_text_edit(state, true);
        },
        None => {},
    }
    match clicked_row {
        Some(row) => {
            if row < filtered.len() {
                picked = Some(items[filtered[row]].id);
            }
        },
        None => {},
    }
    finish_palette_pick(state, picked);
    picked
}

/// Keyboard navigation never leaves the list: from a highlight inside
/// a non-empty list, any run of keys keeps it inside.
pub proof fn law_navigation_stays_in_list(open: bool, selected: usize, keys: Seq<MaraKey>, filtered_len: usize)
    requires
        selected < filtered_len,
    ensures
        keys_step(open, selected, keys, filtered_len).1 < filtered_len,
    decreases keys.len(),
{
    if keys.len() > 0 {
        law_navigation_stays_in_list(open, selected, keys.drop_last(), filtered_len);
    }
}

/// Down then Up comes back to the same row, unless Down was blocked by
/// the bottom of the list.
pub proof fn law_down_then_up_restores(open: bool, selected: usize, filtered_len: usize)
    requires
        selected + 1 < filtered_len,
    ensures
        keys_step(open, selected, seq![MaraKey::ArrowDown, MaraKey::ArrowUp], filtered_len) == (
            open,
            selected,
            false,
        ),
{
    let keys = seq![MaraKey::ArrowDown, MaraKey::ArrowUp];
    let first = seq![MaraKey::ArrowDown];
    assert(keys.drop_last() =~= first);
    assert(first.drop_last() =~= Seq::<MaraKey>::empty());
    assert(first.last() == MaraKey::ArrowDown);
    assert(keys_step(open, selected, first.drop_last(), filtered_len) == (open, selected, false));
    assert(keys_step(open, selected, first, filtered_len) == (open, (selected + 1) as usize, false));
    assert(keys.last() == MaraKey::ArrowUp);
}

/// Up then Down comes back to the same row, unless Up was blocked by
/// the top of the list.
pub proof fn law_up_then_down_restores(open: bool, selected: usize, filtered_len: usize)
    requires
        0 < selected < filtered_len,
    ensures
        keys_step(open, selected, seq![MaraKey::ArrowUp, MaraKey::ArrowDown], filtered_len) == (
            open,
            selected,
            false,
        ),
{
    let keys = seq![MaraKey::ArrowUp, MaraKey::ArrowDown];
    let first = seq![MaraKey::ArrowUp];
    assert(keys.drop_last() =~= first);
    assert(first.drop_last() =~= Seq::<MaraKey>::empty());
    assert(first.last() == MaraKey::ArrowUp);
    assert(keys_step(open, selected, first.drop_last(), filtered_len) == (open, selected, false));
    assert(keys_step(open, selected, first, filtered_len) == (open, (selected - 1) as usize, false));
    assert(keys.last() == MaraKey::ArrowDown);
}

/// After a run of navigation keys the palette is open exactly when it
/// was open before and none of them was Escape: only Escape dismisses,
/// and no key reopens it.
pub proof fn law_only_escape_dismisses(open: bool, selected: usize, keys: Seq<MaraKey>, filtered_len: usize)
    ensures
        keys_step(open, selected, keys, filtered_len).0 == (open && !keys.contains(MaraKey::Escape)),
    decreases keys.len(),
{
    if keys.len() > 0 {
        let t = keys.drop_last();
        law_only_escape_dismisses(open, selected, t, filtered_len);
        assert(keys =~= t.push(keys.last()));
        if t.contains(MaraKey::Escape) {
            let k = choose|k: int| 0 <= k < t.len() && t[k] == MaraKey::Escape;
            assert(keys[k] == MaraKey::Escape);
        }
        if keys.contains(MaraKey::Escape) && keys.last() != MaraKey::Escape {
            let k = choose|k: int| 0 <= k < keys.len() && keys[k] == MaraKey::Escape;
            assert(t[k] == MaraKey::Escape);
        }
    }
}

/// Enter picks only when the list has a row to pick.
pub proof fn law_pick_needs_rows(open: bool, selected: usize, keys: Seq<MaraKey>)
    ensures
        !keys_step(open, selected, keys, 0).2,
    decreases keys.len(),
{
    if keys.len() > 0 {
        law_pick_needs_rows(open, selected, keys.drop_last());
    }
}

/// An empty query lists every item, in order.
pub proof fn law_empty_query_lists_all(items: Seq<PaletteItem>)
    requires
        items.len() <= usize::MAX,
    ensures
        filtered_indices(items, Seq::empty()).len() == items.len(),
        forall|k: int| 0 <= k < items.len() ==> #[trigger] filtered_indices(items, Seq::empty())[k] == k,
    decreases items.len(),
{
    if items.len() > 0 {
        law_empty_query_lists_all(items.drop_last());
        let rest = filtered_indices(items.drop_last(), Seq::empty());
        let all = filtered_indices(items, Seq::empty());
        assert(listed(items, Seq::empty(), items.len() - 1));
        assert(all == rest.push((items.len() - 1) as usize));
        assert forall|k: int| 0 <= k < items.len() implies #[trigger] all[k] == k by {
            if k < items.len() - 1 {
                assert(all[k] == rest[k]);
            }
        }
    }
}


/// A click on a listed row picks that row's item: the item at the r-th
/// index the query's filter lists, whatever the keys and highlight.
pub proof fn law_clicked_row_picks_its_listed_item(
    items: Seq<PaletteItem>,
    query: Seq<char>,
    selected: usize,
    keys: Seq<MaraKey>,
    row: usize,
)
    requires
        row < filtered_indices(items, query).len(),
    ensures
        frame_pick(items, query, selected, keys, Some(row)) == Some(
            items[filtered_indices(items, query)[row as int] as int].id,
        ),
{
}

/// Without a click, an open frame picks exactly what the keys pick
/// from the listed rows: the listed item under the highlight when a run
/// of keys ends on Enter over a non-empty list, nothing otherwise.
pub proof fn law_unclicked_frame_picks_by_keys(
    items: Seq<PaletteItem>,
    query: Seq<char>,
    selected: usize,
    keys: Seq<MaraKey>,
)
    requires
        items.len() <= usize::MAX,
    ensures
        frame_pick(items, query, selected, keys, None) matches Some(id) ==> exists|r: int|
            0 <= r < filtered_indices(items, query).len() && id == items[filtered_indices(items, query)[r] as int].id,
        filtered_indices(items, query).len() == 0 ==> frame_pick(items, query, selected, keys, None) is None,
{
    let rows = filtered_indices(items, query);
    let n = rows.len() as usize;
    law_filtered_indices_in_bounds(items, query);
    lemma_filtered_len(items, query);
    lemma_pick_in_range(clamped_selection(selected, n), keys, n, true);
    law_pick_needs_rows(true, clamped_selection(selected, n), keys);
}

proof fn lemma_filtered_len(items: Seq<PaletteItem>, query: Seq<char>)
    ensures
        filtered_indices(items, query).len() <= items.len(),
    decreases items.len(),
{
    if items.len() > 0 {
        lemma_filtered_len(items.drop_last(), query);
    }
}

} // verus!
