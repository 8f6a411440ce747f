//! The selection dispatcher: routes a selected item's string identifier to a
//! named, payload-less application event.
//!
//! The event mapping is a closed table from identifiers to event names.
//! Identifiers outside the table — predefined platform items and separators
//! report none, and unknown strings may arrive — are inert: selection is a
//! silent no-op, not an error. Publication is fire-and-forget and synchronous;
//! the dispatcher keeps no state between selections.

use vstd::prelude::*;
use crate::ids::MenuId;
use crate::ids::spec_id_str;
use crate::ids::spec_parse_id;
use crate::ids::parse_id;

verus! {

/// The event name published when the item `id` is selected. The names form a
/// fixed, versioned vocabulary consumed by the UI layer.
pub open spec fn spec_event_str(id: MenuId) -> Seq<char> {
    match id {
        MenuId::NewNote => "menu-new-note"@,
        MenuId::NewWindow => "menu-new-window"@,
        MenuId::CloseWindow => "menu-close-window"@,
        MenuId::OpenNote => "menu-open-note"@,
        MenuId::CycleTheme => "menu-cycle-theme"@,
        MenuId::ThemeSystem => "menu-theme-system"@,
        MenuId::ThemeLight => "menu-theme-light"@,
        MenuId::ThemeDark => "menu-theme-dark"@,
        MenuId::ToggleExplosions => "menu-toggle-explosions"@,
    }
}

/// The event name for the item `id`.
pub fn event_name(id: MenuId) -> (r: String)
    ensures
        r@ == spec_event_str(id),
{
    match id {
        MenuId::NewNote => "menu-new-note".to_owned(),
        MenuId::NewWindow => "menu-new-window".to_owned(),
        MenuId::CloseWindow => "menu-close-window".to_owned(),
        MenuId::OpenNote => "menu-open-note".to_owned(),
        MenuId::CycleTheme => "menu-cycle-theme".to_owned(),
        MenuId::ThemeSystem => "menu-theme-system".to_owned(),
        MenuId::ThemeLight => "menu-theme-light".to_owned(),
        MenuId::ThemeDark => "menu-theme-dark".to_owned(),
        MenuId::ToggleExplosions => "menu-toggle-explosions".to_owned(),
    }
}

/// The event mapping: which event name, if any, a selection string maps to.
/// A string outside the table maps to nothing.
pub open spec fn event_mapping(s: Seq<char>) -> Option<Seq<char>> {
    match spec_parse_id(s) {
        Some(id) => Some(spec_event_str(id)),
        None => None,
    }
}

/// What one selection publishes: exactly the mapped event, or nothing.
pub open spec fn spec_publications(s: Seq<char>) -> Seq<Seq<char>> {
    match event_mapping(s) {
        Some(e) => seq![e],
        None => Seq::empty(),
    }
}

/// What a sequence of selections publishes, in order: each selection
/// contributes its own publications, independently of the others.
pub open spec fn spec_trace(ids: Seq<Seq<char>>) -> Seq<Seq<char>>
    decreases ids.len(),
{
    if ids.len() == 0 {
        Seq::empty()
    } else {
        spec_publications(ids[0]) + spec_trace(ids.drop_first())
    }
}

/// Looks the selection string up in the event mapping: the event name to
/// publish, or `None` when the selection is inert.
pub fn lookup_event(s: &str) -> (r: Option<String>)
    ensures
        r.deep_view() == event_mapping(s@),
{
    match parse_id(s) {
        Some(id) => Some(event_name(id)),
        None => None,
    }
}

/// Handles one selection reported by the host runtime: appends to `log`
/// exactly the publications of `s` — the mapped event once when `s` is in the
/// mapping, nothing at all otherwise. Returns whether an event was published.
/// Unknown identifiers are silent no-ops, never errors.
pub fn handle_selection(s: &str, log: &mut Vec<String>) -> (published: bool)
    ensures
        final(log).deep_view() == old(log).deep_view() + spec_publications(s@),
        published == (event_mapping(s@) is Some),
{
    match lookup_event(s) {
        Some(e) => {
            log.push(e);
            assert(log.deep_view() =~= old(log).deep_view() + spec_publications(s@));
            true
        },
        None => {
            assert(log.deep_view() =~= old(log).deep_view() + spec_publications(s@));
            false
        },
    }
}

/// Handles a whole sequence of selections in order, starting from an empty
/// log, and returns everything published.
pub fn dispatch_all(selections: &Vec<String>) -> (log: Vec<String>)
    ensures
        log.deep_view() == spec_trace(selections.deep_view()),
{
    let mut log: Vec<String> = Vec::new();
    assert(log.deep_view() =~= spec_trace(selections.deep_view().take(0)));
    for i in 0..selections.len()
        invariant
            log.deep_view() == spec_trace(selections.deep_view().take(i as int)),
    {
        let _ = handle_selection(selections[i].as_str(), &mut log);
        proof {
            lemma_trace_snoc(selections.deep_view(), i as int);
        }
    }
    assert(selections.deep_view().take(selections.len() as int) =~= selections.deep_view());
    log
}

/// Extending a prefix of selections by one selection appends exactly that
/// selection's publications to the trace.
proof fn lemma_trace_snoc(ids: Seq<Seq<char>>, i: int)
    requires
        0 <= i < ids.len(),
    ensures
        spec_trace(ids.take(i + 1)) == spec_trace(ids.take(i)) + spec_publications(ids[i]),
    decreases i,
{
    if i == 0 {
        assert(ids.take(1) =~= seq![ids[0]]);
        assert(ids.take(1)[0] == ids[0]);
        assert(ids.take(1).drop_first() =~= Seq::<Seq<char>>::empty());
        assert(spec_trace(ids.take(0)) =~= Seq::<Seq<char>>::empty());
        assert(spec_trace(ids.take(1).drop_first()) =~= Seq::<Seq<char>>::empty());
        assert(spec_trace(ids.take(1)) =~= spec_publications(ids[0]));
    } else {
        lemma_trace_snoc(ids.drop_first(), i - 1);
        assert(ids.take(i + 1).drop_first() =~= ids.drop_first().take(i));
        assert(ids.take(i).drop_first() =~= ids.drop_first().take(i - 1));
        assert(ids.take(i + 1)[0] == ids[0] && ids.take(i)[0] == ids[0]);
        assert(ids.drop_first()[i - 1] == ids[i]);
    }
}

/// Law: a selection whose identifier is in the event mapping publishes the
/// mapped event exactly once — no duplicate and no missing publication.
pub proof fn lemma_mapped_publishes_exactly_once(s: Seq<char>, e: Seq<char>)
    requires
        event_mapping(s) == Some(e),
    ensures
        spec_publications(s) =~= seq![e],
{
}

/// Law: a selection whose identifier is absent from the event mapping
/// publishes nothing.
pub proof fn lemma_absent_publishes_nothing(s: Seq<char>)
    requires
        event_mapping(s) is None,
    ensures
        spec_publications(s) =~= Seq::<Seq<char>>::empty(),
{
}

/// Law: the string identifier of every menu item is in the event mapping,
/// and maps to that item's event name. Selecting any item of any built tree
/// therefore publishes; only predefined platform items, separators and
/// foreign strings are inert.
pub proof fn lemma_every_item_id_mapped(id: MenuId)
    ensures
        event_mapping(spec_id_str(id)) == Some(spec_event_str(id)),
{
    crate::ids::lemma_id_string_round_trip(id);
}

/// Law: dispatch is stateless across selections — selecting the same mapped
/// identifier twice in sequence publishes its event twice, independently,
/// with no deduplication or debouncing.
pub proof fn lemma_repeat_publishes_twice(s: Seq<char>, e: Seq<char>)
    requires
        event_mapping(s) == Some(e),
    ensures
        spec_trace(seq![s, s]) =~= seq![e, e],
{
    assert(seq![s, s].drop_first() =~= seq![s]);
    assert(seq![s].drop_first() =~= Seq::<Seq<char>>::empty());
    assert(seq![s, s][0] == s && seq![s][0] == s);
    assert(spec_trace(seq![s].drop_first()) =~= Seq::<Seq<char>>::empty());
    assert(spec_trace(seq![s]) =~= seq![e]);
    assert(spec_trace(seq![s, s]) =~= seq![e] + seq![e]);
}

} // verus!
